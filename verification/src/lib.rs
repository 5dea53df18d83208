//! Decision logic of a Spotify Connect output switcher.
//!
//! A daemon keeps track of the Connect devices of an account and serves requests on a socket; a
//! client makes them. [`cluster`] holds what is known of the devices, [`devices`] makes the list
//! of them, [`control`] answers requests, [`daemon`] follows the connection to Spotify and [`cli`]
//! is the client. [`message`], [`json`] and [`put`] read and
//! write what goes over the wire. What holds of every list and of every answer is proved in
//! [`list_laws`] and [`answer_laws`].
//!
//! What the operations are for is proved in [`operation_laws`], of the calls themselves, and in
//! [`shown_laws`], [`command_laws`], [`life_laws`], [`client_laws`] and [`text_laws`], of what the
//! contracts speak of. [`model_laws`] ties the models to the values.

pub mod answer_laws;
pub mod cli;
pub mod client_laws;
pub mod cluster;
pub mod command_laws;
pub mod control;
pub mod daemon;
pub mod devices;
pub mod identity;
pub mod json;
pub mod life_laws;
pub mod list_laws;
pub mod message;
pub mod model_laws;
pub mod operation_laws;
pub mod paths;
pub mod put;
pub mod shown_laws;
pub mod text;
pub mod text_laws;
pub mod volume;
