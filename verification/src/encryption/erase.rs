use vstd::prelude::*;

verus! {

/// A value that can overwrite the secret material it holds.
pub trait Zeroize {
    /// Whether the value holds no secret material any more.
    spec fn is_zeroized(&self) -> bool;

    /// Overwrites the secret material of the value.
    fn zeroize(&mut self)
        ensures
            final(self).is_zeroized(),
    ;
}

/// A sequence of `len` zero bytes.
pub open spec fn zero_bytes(len: nat) -> Seq<u8> {
    Seq::new(len, |i: int| 0u8)
}

/// Calls `zeroize::Zeroize::zeroize` on a byte array, which sets every
/// element to zero and keeps the length.
#[verifier::external_body]
pub(crate) fn wipe_array<const N: usize>(bytes: &mut [u8; N])
    ensures
        final(bytes)@ == zero_bytes(N as nat),
{
    ::zeroize::Zeroize::zeroize(bytes)
}

/// Calls `zeroize::Zeroize::zeroize` on a byte vector, which zeroes the
/// elements and the spare capacity and then clears the vector.
#[verifier::external_body]
pub(crate) fn wipe_bytes(bytes: &mut Vec<u8>)
    ensures
        final(bytes)@.len() == 0,
{
    ::zeroize::Zeroize::zeroize(bytes)
}

/// Calls `zeroize::Zeroize::zeroize` on a string, which zeroes its bytes and
/// leaves the string empty.
#[verifier::external_body]
pub(crate) fn wipe_string(text: &mut String)
    ensures
        final(text)@.len() == 0,
{
    ::zeroize::Zeroize::zeroize(text)
}

/// Calls `rand::Rng::fill_bytes` on the thread-local generator that
/// `rand::rng` returns, a cryptographically secure generator seeded by the
/// operating system. Nothing is known of the bytes but their number. The
/// generator panics if the operating system cannot seed it.
#[verifier::external_body]
pub(crate) fn random_bytes<const N: usize>() -> (bytes: [u8; N]) {
    let mut bytes = [0u8; N];
    ::rand::Rng::fill_bytes(&mut ::rand::rng(), &mut bytes);
    bytes
}

} // verus!
