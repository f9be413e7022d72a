use vstd::prelude::*;

verus! {

/// A byte from `rand::random::<u8>`, which samples the thread-local
/// generator. Nothing is claimed about the value: callers are verified for
/// every byte that may come back. The generator is seeded from the operating
/// system on a thread's first draw, and the call panics if that seeding
/// fails; it takes no argument, so no precondition could rule that out.
#[verifier::external_body]
pub(crate) fn random_byte() -> (byte: u8) {
    rand::random::<u8>()
}

} // verus!
