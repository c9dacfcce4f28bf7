//! Canonical byte encodings of updates, messages and signatures.

use vstd::prelude::*;
use crate::types::{ReplicaError, Signature, SignatureView, StampedMessage, Update, UpdateView};

verus! {

/// The four bytes of `x`, most significant first.
pub open spec fn u32_be(x: u32) -> Seq<u8> {
    seq![
        (x / 0x100_0000) as u8,
        ((x / 0x1_0000) % 0x100) as u8,
        ((x / 0x100) % 0x100) as u8,
        (x % 0x100) as u8,
    ]
}

/// The bytes over which an update is signed: domain, previous root, new root.
pub open spec fn update_encoding(u: UpdateView) -> Seq<u8> {
    u32_be(u.origin_domain) + u.previous_root + u.new_root
}

/// The bytes of a message: origin, destination, nonce, then the body.
pub open spec fn message_encoding(origin: u32, destination: u32, nonce: u32, body: Seq<u8>) -> Seq<u8> {
    u32_be(origin) + u32_be(destination) + u32_be(nonce) + body
}

/// The 65 bytes of a signature: `r`, `s`, then the low byte of `v`.
pub open spec fn signature_encoding(sig: SignatureView) -> Seq<u8> {
    sig.r + sig.s + seq![(sig.v % 0x100) as u8]
}

/// Appends the bytes of `src` to `out`.
pub fn append_bytes(out: &mut Vec<u8>, src: &[u8])
    ensures
        final(out)@ == old(out)@ + src@,
{
    let mut i: usize = 0;
    while i < src.len()
        invariant
            i <= src@.len(),
            out@ == old(out)@ + src@.subrange(0, i as int),
        decreases src@.len() - i,
    {
        out.push(src[i]);
        i = i + 1;
    }
}

/// Appends the big-endian bytes of `x` to `out`.
pub fn append_u32(out: &mut Vec<u8>, x: u32)
    ensures
        final(out)@ == old(out)@ + u32_be(x),
{
    out.push((x / 0x100_0000) as u8);
    out.push(((x / 0x1_0000) % 0x100) as u8);
    out.push(((x / 0x100) % 0x100) as u8);
    out.push((x % 0x100) as u8);
}

impl Update {
    /// The bytes over which this update is signed.
    pub fn to_vec(&self) -> (out: Vec<u8>)
        ensures
            out@ == update_encoding(self@),
    {
        let mut out: Vec<u8> = Vec::new();
        append_u32(&mut out, self.origin_domain);
        append_bytes(&mut out, self.previous_root.bytes.as_slice());
        append_bytes(&mut out, self.new_root.bytes.as_slice());
        out
    }
}

impl StampedMessage {
    /// The bytes of this message, as they are hashed into a leaf.
    pub fn to_vec(&self) -> (out: Vec<u8>)
        ensures
            out@ == message_encoding(self.origin, self.destination, self.nonce, self.body@),
    {
        let mut out: Vec<u8> = Vec::new();
        append_u32(&mut out, self.origin);
        append_u32(&mut out, self.destination);
        append_u32(&mut out, self.nonce);
        append_bytes(&mut out, self.body.as_slice());
        out
    }
}

impl Signature {
    /// The 65 bytes under which a signature is handed to the ledger.
    pub fn to_vec(&self) -> (out: Vec<u8>)
        ensures
            out@ == signature_encoding(self@),
    {
        let mut out: Vec<u8> = Vec::new();
        append_bytes(&mut out, self.r.as_slice());
        append_bytes(&mut out, self.s.as_slice());
        out.push((self.v % 0x100) as u8);
        out
    }

    /// Reads a signature from the 65 bytes that the ledger records. Any
    /// other length is turned down with `InvalidSignature`.
    pub fn from_bytes(bytes: &[u8]) -> (out: Result<Signature, ReplicaError>)
        ensures
            bytes@.len() == 65 ==> out is Ok && out.unwrap()@ == (SignatureView {
                r: bytes@.subrange(0, 32),
                s: bytes@.subrange(32, 64),
                v: bytes@[64] as u64,
            }),
            bytes@.len() != 65 ==> out == Err::<Signature, ReplicaError>(ReplicaError::InvalidSignature),
    {
        if bytes.len() != 65 {
            return Err(ReplicaError::InvalidSignature);
        }
        let mut r: [u8; 32] = [0u8; 32];
        let mut s: [u8; 32] = [0u8; 32];
        let mut i: usize = 0;
        while i < 32
            invariant
                i <= 32,
                bytes@.len() == 65,
                forall|k: int| 0 <= k < i ==> r@[k] == bytes@[k] && s@[k] == bytes@[32 + k],
            decreases 32 - i,
        {
            r[i] = bytes[i];
            s[i] = bytes[32 + i];
            i = i + 1;
        }
        let v: u64 = bytes[64] as u64;
        assert(r@ =~= bytes@.subrange(0, 32));
        assert(s@ =~= bytes@.subrange(32, 64));
        Ok(Signature { r, s, v })
    }
}

} // verus!
