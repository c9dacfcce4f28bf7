//! The arguments with which each operation is handed to a replica that
//! lives on a ledger.

use vstd::prelude::*;
use crate::encoding::{message_encoding, signature_encoding};
use crate::types::{DoubleUpdate, H256, SignedUpdate, StampedMessage};

verus! {

/// The arguments of an update call.
#[derive(Clone, Debug, PartialEq, Eq)]
pub struct UpdateCall {
    pub previous_root: [u8; 32],
    pub new_root: [u8; 32],
    pub signature: Vec<u8>,
}

/// The arguments of a double-update call.
#[derive(Clone, Debug, PartialEq, Eq)]
pub struct DoubleUpdateCall {
    pub previous_root: [u8; 32],
    pub new_roots: [[u8; 32]; 2],
    pub first_signature: Vec<u8>,
    pub second_signature: Vec<u8>,
}

/// The arguments of a call that proves a leaf.
#[derive(Clone, Debug, PartialEq, Eq)]
pub struct ProveCall {
    pub leaf: [u8; 32],
    pub proof: [[u8; 32]; 32],
    pub index: u32,
}

/// The arguments of a call that proves and processes a message.
#[derive(Clone, Debug, PartialEq, Eq)]
pub struct ProveAndProcessCall {
    pub message: Vec<u8>,
    pub proof: [[u8; 32]; 32],
    pub index: u32,
}

/// The siblings of a proof as plain byte arrays, in the same order.
pub fn proof_bytes(proof: &[H256; 32]) -> (out: [[u8; 32]; 32])
    ensures
        forall|k: int| 0 <= k < 32 ==> #[trigger] out@[k]@ == proof@[k]@,
{
    let mut out: [[u8; 32]; 32] = [[0u8; 32]; 32];
    let mut i: usize = 0;
    while i < 32
        invariant
            i <= 32,
            forall|k: int| 0 <= k < i ==> #[trigger] out@[k]@ == proof@[k]@,
        decreases 32 - i,
    {
        out[i] = proof[i].bytes;
        i = i + 1;
    }
    out
}

/// The arguments that submit a signed update: its two roots and the 65
/// bytes of its signature.
pub fn update_call(signed: &SignedUpdate) -> (out: UpdateCall)
    ensures
        out.previous_root@ == signed.update.previous_root@,
        out.new_root@ == signed.update.new_root@,
        out.signature@ == signature_encoding(signed.signature@),
{
    UpdateCall {
        previous_root: signed.update.previous_root.to_fixed_bytes(),
        new_root: signed.update.new_root.to_fixed_bytes(),
        signature: signed.signature.to_vec(),
    }
}

/// The arguments that submit a claim of equivocation: the previous root of
/// the first update, the new roots of both in their order, and both
/// signatures.
pub fn double_update_call(double: &DoubleUpdate) -> (out: DoubleUpdateCall)
    ensures
        out.previous_root@ == double.0.update.previous_root@,
        out.new_roots@.len() == 2,
        out.new_roots@[0]@ == double.0.update.new_root@,
        out.new_roots@[1]@ == double.1.update.new_root@,
        out.first_signature@ == signature_encoding(double.0.signature@),
        out.second_signature@ == signature_encoding(double.1.signature@),
{
    DoubleUpdateCall {
        previous_root: double.0.update.previous_root.to_fixed_bytes(),
        new_roots: [double.0.update.new_root.to_fixed_bytes(), double.1.update.new_root.to_fixed_bytes()],
        first_signature: double.0.signature.to_vec(),
        second_signature: double.1.signature.to_vec(),
    }
}

/// The arguments that prove a leaf at an index.
pub fn prove_call(leaf: &H256, proof: &[H256; 32], index: u32) -> (out: ProveCall)
    ensures
        out.leaf@ == leaf@,
        forall|k: int| 0 <= k < 32 ==> #[trigger] out.proof@[k]@ == proof@[k]@,
        out.index == index,
{
    ProveCall { leaf: leaf.to_fixed_bytes(), proof: proof_bytes(proof), index }
}

/// The arguments that prove and process a message in one call.
pub fn prove_and_process_call(message: &StampedMessage, proof: &[H256; 32], index: u32) -> (out:
    ProveAndProcessCall)
    ensures
        out.message@ == message_encoding(message.origin, message.destination, message.nonce, message.body@),
        forall|k: int| 0 <= k < 32 ==> #[trigger] out.proof@[k]@ == proof@[k]@,
        out.index == index,
{
    ProveAndProcessCall { message: message.to_vec(), proof: proof_bytes(proof), index }
}

} // verus!
