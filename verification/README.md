# spotify-connect

A switcher for the output of Spotify Connect: a daemon that is a Connect receiver, keeps track of
the devices of the account and serves requests on a unix socket, and a client for it.

    spotify-connect daemon [--mock] | login | status | devices | switch <device-id> | volume <0-100>

- `src/` is the logic, verified with Verus: the list of devices, the answers to requests, the life
  of the daemon, the messages that go over the wire, the command line. Calls into `serde_json`,
  `http`, `protobuf` and `librespot-protocol` stand behind functions whose contracts are trusted;
  each says what it claims of the call.
- `app/` is the program around it: sockets, files, and the connection to Spotify.
- `tests/` runs the library with the real crates.
