use sha1::Sha1;
use sha2::{Digest, Sha256};
use vstd::prelude::*;

verus! {

/// What SHA-1, printed as upper-case hex, gives for a byte sequence.
pub uninterp spec fn sha1_hex_of(data: Seq<u8>) -> Seq<char>;

/// What SHA-256, printed as upper-case hex, gives for a byte sequence.
pub uninterp spec fn sha256_hex_of(data: Seq<u8>) -> Seq<char>;

/// The bytes that a running SHA-256 state has absorbed so far.
pub uninterp spec fn sha256_absorbed(h: RunningSha256) -> Seq<u8>;

/// A SHA-256 state that is fed incrementally, so that a long stream need not
/// be held in memory to be digested.
#[verifier::external_body]
pub struct RunningSha256 {
    inner: Sha256,
}

/// Relies on `sha1::Sha1::digest` and the upper-case hex printing of its output:
/// the digest depends on the bytes alone.
#[verifier::external_body]
pub(crate) fn sha1_hex(data: &[u8]) -> (r: String)
    ensures
        r@ == sha1_hex_of(data@),
{
    format!("{:X}", Sha1::digest(data))
}

/// Relies on `sha2::Sha256::new`: a fresh state has absorbed nothing.
#[verifier::external_body]
pub(crate) fn sha256_start() -> (r: RunningSha256)
    ensures
        sha256_absorbed(r) == Seq::<u8>::empty(),
{
    RunningSha256 { inner: Sha256::new() }
}

/// Relies on `sha2::Digest::update`: the state absorbs `data` after what it held.
#[verifier::external_body]
pub(crate) fn sha256_update(h: &mut RunningSha256, data: &[u8])
    ensures
        sha256_absorbed(*final(h)) == sha256_absorbed(*old(h)) + data@,
{
    h.inner.update(data)
}

/// Relies on `sha2::Digest::finalize` and the upper-case hex printing of its output:
/// the result is the digest of everything the state absorbed.
#[verifier::external_body]
pub(crate) fn sha256_finish_hex(h: RunningSha256) -> (r: String)
    ensures
        r@ == sha256_hex_of(sha256_absorbed(h)),
{
    format!("{:X}", h.inner.finalize())
}

/// The upper-case hex SHA-256 digest of `data`.
pub fn sha256_hex(data: &[u8]) -> (r: String)
    ensures
        r@ == sha256_hex_of(data@),
{
    let mut h = sha256_start();
    sha256_update(&mut h, data);
    proof {
        assert(Seq::<u8>::empty() + data@ =~= data@);
    }
    sha256_finish_hex(h)
}

} // verus!
