//! Hashing and signer recovery, both done by the `ethers` crate.

use vstd::prelude::*;
use crate::encoding::update_encoding;
use crate::types::{Address, H256, ReplicaError, Signature, SignatureView, Update, UpdateView};

verus! {

/// The Keccak-256 digest of a byte string, as `ethers` computes it.
pub uninterp spec fn keccak256_digest(bytes: Seq<u8>) -> Seq<u8>;

/// The address that `ethers` recovers from a signature `(r, s, v)` over a
/// 32-byte digest, or `None` where it recovers none.
pub uninterp spec fn recovered_address(r: Seq<u8>, s: Seq<u8>, v: u64, digest: Seq<u8>) -> Option<Seq<u8>>;

/// Calls `ethers::utils::keccak256`. Nothing is proved of the digest:
/// the contract only gives it its name, as a function of the bytes hashed.
#[verifier::external_body]
pub(crate) fn keccak256(bytes: &[u8]) -> (out: [u8; 32])
    ensures
        out@ == keccak256_digest(bytes@),
{
    ethers::utils::keccak256(bytes)
}

/// Calls `ethers::types::Signature::recover` on a prehashed message,
/// with `r` and `s` read as big-endian numbers. The contract names the
/// outcome as a function of the signature and the digest: the address on
/// success, `None` on any error of the recovery.
#[verifier::external_body]
pub(crate) fn ecrecover(signature: &Signature, digest: &[u8; 32]) -> (out: Option<[u8; 20]>)
    ensures
        match out {
            Some(address) => recovered_address(signature.r@, signature.s@, signature.v, digest@) == Some(
                address@,
            ),
            None => recovered_address(signature.r@, signature.s@, signature.v, digest@) is None,
        },
{
    let outside = ethers::types::Signature {
        r: ethers::types::U256::from_big_endian(&signature.r),
        s: ethers::types::U256::from_big_endian(&signature.s),
        v: signature.v,
    };
    match outside.recover(ethers::types::H256(*digest)) {
        Ok(address) => Some(address.0),
        Err(_) => None,
    }
}

/// Hashes a byte string.
pub fn hash_bytes(bytes: &[u8]) -> (out: H256)
    ensures
        out@ == keccak256_digest(bytes@),
{
    H256 { bytes: keccak256(bytes) }
}

/// The digest over which an update is signed.
pub open spec fn spec_signing_hash(update: UpdateView) -> Seq<u8> {
    keccak256_digest(update_encoding(update))
}

/// The signer of an update, where the signature yields one.
pub open spec fn spec_recover_signer(update: UpdateView, signature: SignatureView) -> Option<Seq<u8>> {
    recovered_address(signature.r, signature.s, signature.v, spec_signing_hash(update))
}

impl Update {
    /// The digest over which this update is signed: the hash of its
    /// canonical encoding, which binds the domain into the signature.
    pub fn signing_hash(&self) -> (out: H256)
        ensures
            out@ == spec_signing_hash(self@),
    {
        let encoded = self.to_vec();
        hash_bytes(encoded.as_slice())
    }
}

/// Recovers the identity that signed `update`. Fails with
/// `InvalidSignature` exactly where no signer can be recovered.
pub fn recover_signer(update: &Update, signature: &Signature) -> (out: Result<Address, ReplicaError>)
    ensures
        match spec_recover_signer(update@, signature@) {
            Some(signer) => out is Ok && out.unwrap()@ == signer,
            None => out == Err::<Address, ReplicaError>(ReplicaError::InvalidSignature),
        },
{
    let digest = update.signing_hash();
    match ecrecover(signature, &digest.bytes) {
        Some(bytes) => Ok(Address { bytes }),
        None => Err(ReplicaError::InvalidSignature),
    }
}

} // verus!
