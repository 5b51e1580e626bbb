//! Error kinds surfaced by the client.

use vstd::prelude::*;

verus! {

/// The ways a client operation can fail.
///
/// `NotFound` is returned when a path is opened without create intent
/// but does not exist, and when a directory delete is asked of a path
/// that does not exist. `IoOther` covers any native call that reports a
/// non-zero or null failure status (flush, delete, native open).
/// `ConnectionFailure` is returned when the coordinator cannot be
/// reached (the native connect call hands back no session).
#[derive(Clone, Copy, Debug, PartialEq, Eq, Structural)]
pub enum FsError {
    NotFound,
    IoOther,
    ConnectionFailure,
}

} // verus!
