//! Placement of PTY descriptors relative to the standard streams.

use vstd::prelude::*;

verus! {

/// The descriptor number of standard error.
///
/// Calls `libc::STDERR_FILENO`, which the C library defines as 2 on every
/// target it supports; the contract claims that value.
#[verifier::external_body]
fn stderr_fileno() -> (fd: i32)
    ensures
        fd == 2,
{
    libc::STDERR_FILENO
}

/// Whether a descriptor occupies the standard-input, output, or error slot,
/// so that it must be moved before the child's standard streams are
/// installed.
pub fn occupies_stdio_slot(raw_fd: i32) -> (low: bool)
    ensures
        low == (raw_fd <= 2),
{
    raw_fd <= stderr_fileno()
}

/// The lowest descriptor number that a moved descriptor may take: the first
/// one above standard error.
pub fn first_descriptor_above_stdio() -> (fd: i32)
    ensures
        fd == 3,
{
    stderr_fileno() + 1
}

} // verus!
