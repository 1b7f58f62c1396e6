//! Errors that stop a run of the event loop.

use vstd::prelude::*;

verus! {

/// Declares `std::io::Error` so that PTY errors can be carried through the
/// loop's decisions and handed back unchanged. The type is opaque: nothing is
/// claimed of its contents.
#[verifier::external_type_specification]
#[verifier::external_body]
pub struct ExIoError(std::io::Error);

/// The I/O or listener error that stopped a run of the event loop.
#[derive(Debug)]
pub enum EventLoopError<E> {
    /// Reading PTY output failed.
    Io(std::io::Error),
    /// A listener callback returned an error.
    Listener(E),
}

} // verus!
