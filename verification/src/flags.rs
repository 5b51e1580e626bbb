//! Open flags handed to the native open call.
//!
//! The native layer takes POSIX-style flag words: read-only, write-only,
//! and a create bit that asks for the file to be made when it is missing.

use vstd::prelude::*;

verus! {

/// Open an existing file for reading.
pub const O_RDONLY: u32 = 0;

/// Open a file for writing.
pub const O_WRONLY: u32 = 1;

/// Create the file if it does not exist.
pub const O_CREAT: u32 = 64;

/// Whether a flag word carries the create bit.
pub open spec fn spec_create_requested(flag: u32) -> bool {
    flag & O_CREAT != 0
}

/// Whether a flag word asks for the file to be created when missing.
pub fn create_requested(flag: u32) -> (r: bool)
    ensures
        r == spec_create_requested(flag),
{
    flag & O_CREAT != 0
}

/// How the create bit falls on the flag words the client uses: plain
/// read-only and write-only opens do not ask for creation, while any
/// word carrying `O_CREAT` does.
pub proof fn lemma_create_requested_values()
    ensures
        !spec_create_requested(O_RDONLY),
        !spec_create_requested(O_WRONLY),
        spec_create_requested(O_CREAT),
        spec_create_requested(O_WRONLY | O_CREAT),
{
    assert(0u32 & 64u32 == 0u32) by (bit_vector);
    assert(1u32 & 64u32 == 0u32) by (bit_vector);
    assert(64u32 & 64u32 != 0u32) by (bit_vector);
    assert((1u32 | 64u32) & 64u32 != 0u32) by (bit_vector);
}

} // verus!
