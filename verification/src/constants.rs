//! Fixed values of the protocol.

use vstd::prelude::*;

verus! {

/// Lowest bit rate, in bits per second, that a file may have to be submitted.
pub const MIN_BITRATE: u64 = 128000;

/// The only status of the storage endpoint that counts as a finished upload.
pub const HTTP_OK: u16 = 200;

} // verus!
