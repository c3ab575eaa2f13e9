use vstd::prelude::*;
use crate::types::{Address, MAX_ADDRESS_XDR_LEN, MAX_METADATA_SIZE};

verus! {

/// The SHA-256 digest of a byte string.
pub uninterp spec fn sha256_digest(data: Seq<u8>) -> Seq<u8>;

/// Longest input hashed in one call. A fresh host environment meters the
/// hashing against its default budget (about 55 instructions per byte out of
/// 100 000 000), and a longer input could exhaust it and trap.
pub const MAX_HASH_INPUT_LEN: usize = 1_000_000;

/// SHA-256 of `data`, computed by the host's crypto facility
/// (`soroban_sdk::crypto::Crypto::sha256`, reached through a fresh `Env`).
/// Trusted: the result is the digest of exactly the given bytes, and it is
/// 32 bytes long (the crate returns a `Hash<32>`); inputs are kept within
/// the host's metering budget.
#[verifier::external_body]
fn sha256(data: &Vec<u8>) -> (digest: Vec<u8>)
    requires
        data@.len() <= MAX_HASH_INPUT_LEN,
    ensures
        digest@ == sha256_digest(data@),
        digest@.len() == 32,
{
    let env = soroban_sdk::Env::default();
    let bytes = soroban_sdk::Bytes::from_slice(&env, data.as_slice());
    env.crypto().sha256(&bytes).to_array().to_vec()
}

/// The bytes whose digest identifies an escrow for duplicate detection:
/// the buyer's serialisation, the seller's, then the metadata if any.
pub open spec fn escrow_preimage(
    buyer: Seq<u8>,
    seller: Seq<u8>,
    metadata: Option<Seq<u8>>,
) -> Seq<u8> {
    buyer + seller + match metadata {
        Some(m) => m,
        None => Seq::<u8>::empty(),
    }
}

/// The duplicate-detection hash of an escrow.
pub open spec fn spec_escrow_hash(
    buyer: Seq<u8>,
    seller: Seq<u8>,
    metadata: Option<Seq<u8>>,
) -> Seq<u8> {
    sha256_digest(escrow_preimage(buyer, seller, metadata))
}

/// Appends the bytes of `src` to `out`.
fn append_bytes(out: &mut Vec<u8>, src: &Vec<u8>)
    ensures
        final(out)@ == old(out)@ + src@,
{
    let mut i: usize = 0;
    while i < src.len()
        invariant
            i <= src@.len(),
            out@ == old(out)@ + src@.subrange(0, i as int),
        decreases src.len() - i,
    {
        out.push(src[i]);
        i = i + 1;
        assert(out@ =~= old(out)@ + src@.subrange(0, i as int));
    }
    assert(src@.subrange(0, src@.len() as int) =~= src@);
}

/// Computes the duplicate-detection hash of an escrow from its buyer, seller
/// and metadata.
pub fn generate_escrow_hash(buyer: &Address, seller: &Address, metadata: &Option<Vec<u8>>) -> (h:
    Vec<u8>)
    requires
        buyer@.len() <= MAX_ADDRESS_XDR_LEN,
        seller@.len() <= MAX_ADDRESS_XDR_LEN,
        metadata is Some ==> metadata.unwrap()@.len() <= MAX_METADATA_SIZE,
    ensures
        h@ == spec_escrow_hash(buyer@, seller@, metadata.deep_view()),
        h@.len() == 32,
{
    let mut bytes: Vec<u8> = Vec::new();
    append_bytes(&mut bytes, &buyer.xdr);
    append_bytes(&mut bytes, &seller.xdr);
    match metadata {
        Some(data) => {
            append_bytes(&mut bytes, data);
        },
        None => {},
    }
    assert(bytes@ =~= escrow_preimage(buyer@, seller@, metadata.deep_view()));
    sha256(&bytes)
}

} // verus!
