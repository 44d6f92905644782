//! Rolling integrity digest over the bytes that cross the wire.
//!
//! The accumulator wraps an incremental SHA-256 hasher. Its view is the exact
//! byte sequence fed so far; the finalize step is trusted to return the
//! SHA-256 digest of that sequence, named by the uninterpreted function
//! [`sha256_of`].

use vstd::prelude::*;

verus! {

/// Holds the sha2 hasher state. The hasher's type unfolds into generic
/// wrappers whose trait bounds Verus cannot take in a type declaration, so
/// the whole struct is opaque; the accumulator around it carries the model.
#[verifier::external_body]
struct Sha256Hasher {
    inner: sha2::Sha256,
}

/// The SHA-256 digest of a byte sequence, as the sha2 crate computes it: a
/// function of the input bytes alone. Its value is not axiomatized beyond
/// its 32-byte length, stated where the hasher is finalized.
pub uninterp spec fn sha256_of(bytes: Seq<u8>) -> Seq<u8>;

/// Incrementally fingerprints a byte stream without buffering it whole.
///
/// The view of an accumulator is the byte sequence fed to it so far, in
/// order; the result is only meaningful if the chunks are fed in
/// transmission order with none omitted, which the view makes exact.
pub struct DigestAccumulator {
    hasher: Sha256Hasher,
    fed: Ghost<Seq<u8>>,
}

impl View for DigestAccumulator {
    type V = Seq<u8>;

    closed spec fn view(&self) -> Seq<u8> {
        self.fed@
    }
}

impl DigestAccumulator {
    /// Relies on sha2's `Digest::new`: a fresh hasher over the empty prefix.
    #[verifier::external_body]
    pub fn new() -> (acc: DigestAccumulator)
        ensures
            acc@ == Seq::<u8>::empty(),
    {
        DigestAccumulator {
            hasher: Sha256Hasher { inner: <sha2::Sha256 as sha2::Digest>::new() },
            fed: Ghost(Seq::empty()),
        }
    }

    /// Relies on sha2's `Digest::update`: extends the hashed prefix by
    /// exactly the bytes of `chunk`, in order.
    #[verifier::external_body]
    pub fn update(&mut self, chunk: &[u8])
        ensures
            final(self)@ == old(self)@ + chunk@,
    {
        sha2::Digest::update(&mut self.hasher.inner, chunk);
    }

    /// Relies on sha2's `Digest::finalize`: returns the 32-byte SHA-256
    /// digest of everything fed so far, a function of those bytes alone.
    #[verifier::external_body]
    pub fn finalize(self) -> (digest: Vec<u8>)
        ensures
            digest@ == sha256_of(self@),
            digest@.len() == 32,
    {
        sha2::Digest::finalize(self.hasher.inner).to_vec()
    }
}

} // verus!
