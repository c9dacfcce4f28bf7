use optics_replica::calls::{double_update_call, proof_bytes, prove_and_process_call, prove_call, update_call};
use optics_replica::types::{DoubleUpdate, H256, Signature, SignedUpdate, StampedMessage, Update};

fn signed(previous: u8, new: u8, v: u64) -> SignedUpdate {
    SignedUpdate {
        update: Update {
            origin_domain: 5,
            previous_root: H256::from_bytes([previous; 32]),
            new_root: H256::from_bytes([new; 32]),
        },
        signature: Signature { r: [previous; 32], s: [new; 32], v },
    }
}

fn numbered_proof() -> [H256; 32] {
    let mut proof = [H256::from_bytes([0u8; 32]); 32];
    for i in 0..32 {
        proof[i] = H256::from_bytes([i as u8 + 1; 32]);
    }
    proof
}

#[test]
fn update_call_carries_roots_and_signature() {
    let call = update_call(&signed(1, 2, 27));
    assert_eq!(call.previous_root, [1u8; 32]);
    assert_eq!(call.new_root, [2u8; 32]);
    let mut expected = vec![1u8; 32];
    expected.extend_from_slice(&[2u8; 32]);
    expected.push(27);
    assert_eq!(call.signature, expected);
}

#[test]
fn double_update_call_keeps_the_order_of_the_pair() {
    let call = double_update_call(&DoubleUpdate(signed(1, 2, 27), signed(1, 3, 28)));
    assert_eq!(call.previous_root, [1u8; 32]);
    assert_eq!(call.new_roots, [[2u8; 32], [3u8; 32]]);
    assert_eq!(call.first_signature, signed(1, 2, 27).signature.to_vec());
    assert_eq!(call.second_signature, signed(1, 3, 28).signature.to_vec());
    assert_eq!(call.second_signature[64], 28);
}

#[test]
fn proof_bytes_keeps_every_sibling_in_place() {
    let bytes = proof_bytes(&numbered_proof());
    for i in 0..32 {
        assert_eq!(bytes[i], [i as u8 + 1; 32]);
    }
}

#[test]
fn prove_calls_carry_leaf_proof_and_index() {
    let proof = numbered_proof();
    let call = prove_call(&H256::from_bytes([9u8; 32]), &proof, 77);
    assert_eq!(call.leaf, [9u8; 32]);
    assert_eq!(call.proof[31], [32u8; 32]);
    assert_eq!(call.index, 77);
    let message = StampedMessage { origin: 1, destination: 2, nonce: 3, body: vec![4] };
    let both = prove_and_process_call(&message, &proof, 78);
    assert_eq!(both.message, vec![0, 0, 0, 1, 0, 0, 0, 2, 0, 0, 0, 3, 4]);
    assert_eq!(both.proof[0], [1u8; 32]);
    assert_eq!(both.index, 78);
}
