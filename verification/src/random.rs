//! The one source of chance in the machine.

use vstd::prelude::*;

verus! {

/// A byte from `rand::random::<u8>()`, which draws it from the generator of
/// the calling thread. Nothing is claimed of the byte: any value may come,
/// and two calls need not agree. The generator takes its seed from the
/// operating system: on its first use in a thread, and again each time it
/// reseeds, which it does after 64 KiB of output and after a fork of the
/// process. It panics if the operating system fails to give a seed at
/// either time.
#[verifier::external_body]
pub(crate) fn random_byte() -> (r: u8) {
    rand::random::<u8>()
}

} // verus!
