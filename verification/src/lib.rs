//! Core of a real-time gateway: a client-issued `get_user` event is bridged
//! to a backend HTTP lookup, and the backend's outcome is translated into
//! exactly one reply event on the originating connection.
//!
//! The modules here hold the decision logic of that bridging path. The
//! surrounding process (the socket transport, the HTTP client, logging and
//! startup) performs I/O only and hands plain values in and out.

pub mod bridge;
pub mod digits;
pub mod events;
pub mod status;
pub mod url;
pub mod user;
