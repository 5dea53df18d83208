//! Names by which this computer goes.

use vstd::prelude::*;

use crate::text::{is_white_space, lemma_trimmed, remove_hyphens, trim, trimmed};

verus! {

/// The id of the hidden device that watches the account on behalf of the device `own_id`.
pub open spec fn observer_of(own_id: Seq<char>) -> Seq<char> {
    own_id + "obs"@
}

/// The id of the hidden device that watches the account on behalf of the device `own_id`.
pub fn observer_id(own_id: &str) -> (id: String)
    ensures
        id@ == observer_of(own_id@),
{
    own_id.to_owned().concat("obs")
}

/// The device id that a file holds.
pub open spec fn stored_id(text: Seq<char>) -> Seq<char> {
    trimmed(text)
}

/// The device id that is made of a UUID.
pub open spec fn made_id(uuid: Seq<char>) -> Seq<char> {
    trimmed(uuid).filter(|c: char| c != '-')
}

/// The device id that a file holds.
pub fn stored_device_id(text: &str) -> (id: String)
    ensures
        id@ == stored_id(text@),
{
    trim(text).to_owned()
}

/// The device id that is known already: what its file holds, where that can be read.
pub fn known_device_id(file: Option<String>) -> (id: Option<String>)
    ensures
        match file {
            Some(text) => id matches Some(known) && known@ == stored_id(text@),
            None => id is None,
        },
{
    match file {
        Some(text) => Some(stored_device_id(text.as_str())),
        None => None,
    }
}

/// The device id that is made of a UUID.
pub fn new_device_id(uuid: &str) -> (id: String)
    ensures
        id@ == made_id(uuid@),
{
    remove_hyphens(trim(uuid))
}

/// The name of this computer: what its file says, or `librespot` where that cannot be read.
pub fn hostname(file: Option<String>) -> (name: String)
    ensures
        name@ == match file {
            Some(text) => trimmed(text@),
            None => "librespot"@,
        },
{
    match file {
        Some(text) => trim(text.as_str()).to_owned(),
        None => "librespot".to_owned(),
    }
}

/// The name under which Spotify gets to know this computer.
pub fn receiver_name(hostname: &str) -> (name: String)
    ensures
        name@ == "Omarchy "@ + hostname@,
{
    "Omarchy ".to_owned().concat(hostname)
}

/// A device id that was made and stored is the one that is read afterwards, unless taking out the
/// hyphens has bared white space at an end.
pub proof fn lemma_device_id_is_stable(uuid: Seq<char>)
    requires
        made_id(uuid).len() > 0 ==> !is_white_space(made_id(uuid).first())
            && !is_white_space(made_id(uuid).last()),
    ensures
        stored_id(made_id(uuid)) == made_id(uuid),
{
}

/// A device id that is read and stored again stays the same.
pub proof fn lemma_stored_id_is_stable(text: Seq<char>)
    ensures
        stored_id(stored_id(text)) == stored_id(text),
{
    lemma_trimmed(text);
}

} // verus!
