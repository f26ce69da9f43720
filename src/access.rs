//! How the device files that the input library asks for are opened.

use vstd::prelude::*;

verus! {

/// Whether a device asked for with open `flags` is opened for writing (it is
/// always opened for reading): when either the write-only or the read-write
/// access bit, as the platform defines them, is set.
pub fn write_requested(flags: i32, write_only: i32, read_write: i32) -> (r: bool)
    ensures
        r == ((flags & write_only) != 0 || (flags & read_write) != 0),
{
    (flags & write_only) != 0 || (flags & read_write) != 0
}

} // verus!
