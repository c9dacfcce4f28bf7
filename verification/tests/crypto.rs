use ethers::utils::keccak256;
use ethers::signers::{LocalWallet, Signer};
use optics_replica::crypto::{hash_bytes, recover_signer};
use optics_replica::encoding::{append_bytes, append_u32};
use optics_replica::merkle::{compute_root, hash_children};
use optics_replica::types::{
    Address, H256, ReplicaError, Signature, StampedMessage, Update, TREE_DEPTH,
};

fn hex(bytes: &[u8]) -> String {
    let mut out = String::new();
    for b in bytes {
        out.push_str(&format!("{:02x}", b));
    }
    out
}

fn join(left: &[u8; 32], right: &[u8; 32]) -> [u8; 32] {
    let mut both = Vec::new();
    both.extend_from_slice(left);
    both.extend_from_slice(right);
    keccak256(&both)
}

fn zero_hashes() -> Vec<[u8; 32]> {
    let mut zeros = vec![[0u8; 32]];
    for level in 0..32 {
        let below = zeros[level];
        zeros.push(join(&below, &below));
    }
    zeros
}

fn node(leaves: &[[u8; 32]], zeros: &[[u8; 32]], level: usize, position: u64) -> [u8; 32] {
    if (position << level) >= leaves.len() as u64 {
        zeros[level]
    } else if level == 0 {
        leaves[position as usize]
    } else {
        join(
            &node(leaves, zeros, level - 1, 2 * position),
            &node(leaves, zeros, level - 1, 2 * position + 1),
        )
    }
}

fn proof_for(leaves: &[[u8; 32]], index: u32) -> Vec<H256> {
    let zeros = zero_hashes();
    let mut proof = Vec::new();
    for level in 0..32 {
        let position = ((index as u64) >> level) ^ 1;
        proof.push(H256::from_bytes(node(leaves, &zeros, level, position)));
    }
    proof
}

fn sample_leaves() -> Vec<[u8; 32]> {
    vec![keccak256(b"a"), keccak256(b"b"), keccak256(b"c"), keccak256(b"d"), keccak256(b"e")]
}

fn sign(wallet: &LocalWallet, update: &Update) -> Signature {
    let digest = update.signing_hash();
    let outside = wallet.sign_hash(ethers::types::H256(digest.bytes)).unwrap();
    let mut r = [0u8; 32];
    let mut s = [0u8; 32];
    outside.r.to_big_endian(&mut r);
    outside.s.to_big_endian(&mut s);
    Signature { r, s, v: outside.v }
}

fn wallet(seed: u8) -> LocalWallet {
    LocalWallet::from_bytes(&[seed; 32]).unwrap()
}

fn sample_update() -> Update {
    Update {
        origin_domain: 5,
        previous_root: H256::from_bytes([0x11; 32]),
        new_root: H256::from_bytes([0x22; 32]),
    }
}

#[test]
fn tree_depth_is_thirty_two() {
    assert_eq!(TREE_DEPTH, 32);
}

#[test]
fn hash_of_empty_input_is_the_keccak_constant() {
    assert_eq!(
        hex(&hash_bytes(&[]).bytes),
        "c5d2460186f7233c927e7db2dcc703c0e500b653ca82273b7bfad8045d85a470"
    );
}

#[test]
fn hash_children_hashes_the_concatenation() {
    let zero = H256::from_bytes([0u8; 32]);
    assert_eq!(
        hex(&hash_children(&zero, &zero).bytes),
        "ad3228b676f7d3cd4284a5443f17f1962b36e491b30a40b2405849e597ba5fb5"
    );
    let left = H256::from_bytes([1u8; 32]);
    let right = H256::from_bytes([2u8; 32]);
    assert_eq!(hash_children(&left, &right).bytes, join(&[1u8; 32], &[2u8; 32]));
    assert_ne!(hash_children(&left, &right), hash_children(&right, &left));
}

#[test]
fn append_u32_is_big_endian() {
    let mut out = vec![9u8];
    append_u32(&mut out, 0x0102_03ff);
    assert_eq!(out, vec![9, 1, 2, 3, 0xff]);
    append_bytes(&mut out, &[7, 8]);
    assert_eq!(out, vec![9, 1, 2, 3, 0xff, 7, 8]);
}

#[test]
fn update_encoding_is_domain_then_roots() {
    let bytes = sample_update().to_vec();
    assert_eq!(bytes.len(), 68);
    assert_eq!(&bytes[0..4], &[0, 0, 0, 5]);
    assert_eq!(&bytes[4..36], &[0x11; 32]);
    assert_eq!(&bytes[36..68], &[0x22; 32]);
    assert_eq!(sample_update().signing_hash().bytes, keccak256(&bytes));
}

#[test]
fn message_encoding_is_header_then_body() {
    let message = StampedMessage { origin: 1, destination: 0x0100, nonce: 0xffff_ffff, body: vec![0xaa, 0xbb] };
    assert_eq!(
        message.to_vec(),
        vec![0, 0, 0, 1, 0, 0, 1, 0, 0xff, 0xff, 0xff, 0xff, 0xaa, 0xbb]
    );
    let empty = StampedMessage { origin: 0, destination: 0, nonce: 0, body: vec![] };
    assert_eq!(empty.to_vec(), vec![0u8; 12]);
}

#[test]
fn signature_bytes_round_trip() {
    let signature = Signature { r: [3; 32], s: [4; 32], v: 28 };
    let bytes = signature.to_vec();
    assert_eq!(bytes.len(), 65);
    assert_eq!(&bytes[0..32], &[3; 32]);
    assert_eq!(&bytes[32..64], &[4; 32]);
    assert_eq!(bytes[64], 28);
    assert_eq!(Signature::from_bytes(&bytes), Ok(signature));
}

#[test]
fn signature_keeps_the_low_byte_of_v() {
    let signature = Signature { r: [0; 32], s: [0; 32], v: 0x1_02 };
    assert_eq!(signature.to_vec()[64], 2);
}

#[test]
fn signature_of_wrong_length_is_invalid() {
    assert_eq!(Signature::from_bytes(&[0u8; 64]), Err(ReplicaError::InvalidSignature));
    assert_eq!(Signature::from_bytes(&[0u8; 66]), Err(ReplicaError::InvalidSignature));
    assert_eq!(Signature::from_bytes(&[]), Err(ReplicaError::InvalidSignature));
}

#[test]
fn recover_signer_finds_the_signing_wallet() {
    let authority = wallet(7);
    let update = sample_update();
    let signature = sign(&authority, &update);
    let signer = recover_signer(&update, &signature).unwrap();
    assert_eq!(signer, Address::from_bytes(authority.address().0));
    assert_ne!(signer, Address::from_bytes(wallet(8).address().0));
    assert_ne!(signer.bytes.to_vec(), signature.r[..20].to_vec());
}

#[test]
fn recover_signer_binds_the_domain() {
    let authority = wallet(7);
    let update = sample_update();
    let signature = sign(&authority, &update);
    let elsewhere = Update { origin_domain: 6, ..update };
    let signer = recover_signer(&elsewhere, &signature);
    assert_ne!(signer, Ok(Address::from_bytes(authority.address().0)));
}

#[test]
fn recover_signer_rejects_a_zero_signature() {
    let signature = Signature { r: [0; 32], s: [0; 32], v: 27 };
    assert_eq!(recover_signer(&sample_update(), &signature), Err(ReplicaError::InvalidSignature));
}

#[test]
fn compute_root_of_an_empty_tree() {
    let zeros = zero_hashes();
    let proof: Vec<H256> = zeros[0..32].iter().map(|z| H256::from_bytes(*z)).collect();
    let root = compute_root(&H256::from_bytes([0u8; 32]), 0, &proof).unwrap();
    assert_eq!(root.bytes, zeros[32]);
    assert_eq!(
        hex(&root.bytes),
        "27ae5ba08d7291c96c8cbddcc148bf48a6d68c7974b94356f53754ef6171d757"
    );
}

#[test]
fn compute_root_follows_an_honest_proof() {
    let leaves = sample_leaves();
    let zeros = zero_hashes();
    let root = node(&leaves, &zeros, 32, 0);
    for index in 0..5u32 {
        let proof = proof_for(&leaves, index);
        let got = compute_root(&H256::from_bytes(leaves[index as usize]), index, &proof);
        assert_eq!(got, Ok(H256::from_bytes(root)));
    }
}

#[test]
fn compute_root_orders_by_the_bits_of_the_index() {
    let leaf = H256::from_bytes([5u8; 32]);
    let proof: Vec<H256> = (0..32u8).map(|i| H256::from_bytes([i; 32])).collect();
    let index: u32 = 0x8000_0005;
    let mut expected = [5u8; 32];
    for level in 0..32 {
        let sibling = [level as u8; 32];
        expected = if (index >> level) & 1 == 1 { join(&sibling, &expected) } else { join(&expected, &sibling) };
    }
    assert_eq!(compute_root(&leaf, index, &proof), Ok(H256::from_bytes(expected)));
}

#[test]
fn compute_root_changes_with_leaf_index_and_proof() {
    let leaves = sample_leaves();
    let zeros = zero_hashes();
    let root = H256::from_bytes(node(&leaves, &zeros, 32, 0));
    let proof = proof_for(&leaves, 2);
    let mut other_leaf = leaves[2];
    other_leaf[0] ^= 1;
    assert_ne!(compute_root(&H256::from_bytes(other_leaf), 2, &proof), Ok(root));
    assert_ne!(compute_root(&H256::from_bytes(leaves[2]), 3, &proof), Ok(root));
    assert_ne!(compute_root(&H256::from_bytes(leaves[2]), 2 | (1 << 31), &proof), Ok(root));
    let mut other_proof = proof.clone();
    other_proof[17].bytes[31] ^= 0x80;
    assert_ne!(compute_root(&H256::from_bytes(leaves[2]), 2, &other_proof), Ok(root));
}

#[test]
fn compute_root_rejects_a_proof_of_wrong_length() {
    let leaf = H256::from_bytes([5u8; 32]);
    let short: Vec<H256> = vec![H256::from_bytes([0u8; 32]); 31];
    let long: Vec<H256> = vec![H256::from_bytes([0u8; 32]); 33];
    assert_eq!(compute_root(&leaf, 0, &short), Err(ReplicaError::MalformedProof));
    assert_eq!(compute_root(&leaf, 0, &long), Err(ReplicaError::MalformedProof));
    assert_eq!(compute_root(&leaf, 0, &[]), Err(ReplicaError::MalformedProof));
}

#[test]
fn hashes_and_addresses_compare_by_their_bytes() {
    let a = H256::from_bytes([1u8; 32]);
    let mut bytes = [1u8; 32];
    assert!(a.same(&H256::from_bytes(bytes)));
    bytes[31] = 2;
    assert!(!a.same(&H256::from_bytes(bytes)));
    assert_eq!(a.to_fixed_bytes(), [1u8; 32]);
    let who = Address::from_bytes([9u8; 20]);
    let mut other = [9u8; 20];
    assert!(who.same(&Address::from_bytes(other)));
    other[0] = 0;
    assert!(!who.same(&Address::from_bytes(other)));
}
