//! Content digests.
//!
//! The digest itself comes from the `sha2` crate.  Its value on a given
//! byte string gets the name `sha256_of`; the incremental hasher state is
//! tracked by `sha_fed`, the bytes absorbed so far.  The chunked driver
//! `hash_chunks` is verified: feeding a buffer in fixed-size chunks yields
//! the digest of the whole buffer.

use vstd::prelude::*;

verus! {

/// The SHA-256 digest of a byte string; a function of the bytes alone.
pub uninterp spec fn sha256_of(b: Seq<u8>) -> Seq<u8>;

/// The bytes a hasher has absorbed since it was created.
pub uninterp spec fn sha_fed(h: sha2::Sha256) -> Seq<u8>;

#[verifier::external_type_specification]
#[verifier::external_body]
pub struct ExSha256(sha2::Sha256);

/// Relies on sha2::Sha256::new (via the Digest trait): a fresh hasher has
/// absorbed nothing.
#[verifier::external_body]
pub fn sha_new() -> (h: sha2::Sha256)
    ensures
        sha_fed(h) == Seq::<u8>::empty(),
{
    sha2::Digest::new()
}

/// Relies on Sha256::update: absorbs the chunk after what came before.
#[verifier::external_body]
pub fn sha_update(h: &mut sha2::Sha256, chunk: &[u8])
    ensures
        sha_fed(*final(h)) == sha_fed(*old(h)) + chunk@,
{
    sha2::Digest::update(h, chunk)
}

/// Relies on Sha256::finalize: returns the 32-byte digest of everything
/// absorbed, a function of those bytes alone.
#[verifier::external_body]
pub fn sha_finalize(h: sha2::Sha256) -> (r: Vec<u8>)
    ensures
        r@ == sha256_of(sha_fed(h)),
        r@.len() == 32,
{
    sha2::Digest::finalize(h).to_vec()
}

/// The chunk size used when feeding a buffer to the hasher, so that memory
/// stays bounded even for large inputs.
pub const HASH_CHUNK_SIZE: usize = 4096;

/// Digest of a whole buffer, computed by absorbing it in fixed-size chunks.
pub fn hash_chunks(data: &Vec<u8>) -> (r: Vec<u8>)
    ensures
        r@ == sha256_of(data@),
        r@.len() == 32,
{
    let mut h = sha_new();
    let mut i: usize = 0;
    while i < data.len()
        invariant
            i <= data.len(),
            sha_fed(h) == data@.subrange(0, i as int),
        decreases data.len() - i,
    {
        let end = if data.len() - i < HASH_CHUNK_SIZE {
            data.len()
        } else {
            i + HASH_CHUNK_SIZE
        };
        let mut chunk: Vec<u8> = Vec::new();
        let mut j: usize = i;
        while j < end
            invariant
                i <= j <= end <= data.len(),
                chunk@ == data@.subrange(i as int, j as int),
            decreases end - j,
        {
            chunk.push(data[j]);
            j = j + 1;
            proof {
                assert(chunk@ =~= data@.subrange(i as int, j as int));
            }
        }
        sha_update(&mut h, chunk.as_slice());
        proof {
            assert(data@.subrange(0, i as int) + data@.subrange(i as int, end as int)
                =~= data@.subrange(0, end as int));
        }
        i = end;
    }
    proof {
        assert(data@.subrange(0, data@.len() as int) =~= data@);
    }
    sha_finalize(h)
}

} // verus!
