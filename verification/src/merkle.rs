//! Inclusion proofs for the remote message tree: a full binary tree of
//! `TREE_DEPTH` levels whose inner nodes hash their two children.

use vstd::prelude::*;
use vstd::arithmetic::power2::{lemma2_to64, lemma_pow2_unfold, pow2};
use crate::crypto::{hash_bytes, keccak256_digest};
use crate::encoding::append_bytes;
use crate::types::{H256, ReplicaError, TREE_DEPTH};

verus! {

/// The hash of an inner node with the given children.
pub open spec fn hash_pair(left: Seq<u8>, right: Seq<u8>) -> Seq<u8> {
    keccak256_digest(left + right)
}

/// The position, at `level`, of the node above leaf `index`: the index with
/// its lowest `level` bits dropped.
pub open spec fn path_position(index: nat, level: nat) -> nat
    decreases level,
{
    if level == 0 {
        index
    } else {
        path_position(index, (level - 1) as nat) / 2
    }
}

/// The position at a level is the index shifted right by that many bits,
/// so its parity is the bit of the index for that level.
pub proof fn lemma_path_position_is_shift(index: u32, level: u32)
    requires
        level < 32,
    ensures
        path_position(index as nat, level as nat) == (index >> level) as nat,
        path_position(index as nat, level as nat) % 2 == ((index >> level) & 1) as nat,
    decreases level,
{
    if level == 0 {
        assert(index >> 0u32 == index) by (bit_vector);
    } else {
        let below = (level - 1) as u32;
        lemma_path_position_is_shift(index, below);
        assert((index >> below) / 2 == index >> ((below + 1) as u32)) by (bit_vector)
            requires
                below < 31,
        ;
    }
    let shifted = index >> level;
    assert(shifted % 2 == shifted & 1) by (bit_vector);
}

/// The hash reached after folding `leaf` upward through `levels` levels.
/// At each level the bit of `index` for that level decides the order: where
/// it is set the node is a right child and the sibling comes first.
pub open spec fn branch_root(leaf: Seq<u8>, index: nat, proof: Seq<Seq<u8>>, levels: nat) -> Seq<u8>
    decreases levels,
{
    if levels == 0 {
        leaf
    } else {
        let below = branch_root(leaf, index, proof, (levels - 1) as nat);
        let sibling = proof[levels - 1];
        if path_position(index, (levels - 1) as nat) % 2 == 1 {
            hash_pair(sibling, below)
        } else {
            hash_pair(below, sibling)
        }
    }
}

/// The root that a leaf, its index and a sibling path of full depth lead to.
pub open spec fn spec_compute_root(leaf: Seq<u8>, index: u32, proof: Seq<Seq<u8>>) -> Seq<u8> {
    branch_root(leaf, index as nat, proof, TREE_DEPTH as nat)
}

/// The siblings of a path, each as its bytes.
pub open spec fn sibling_path(proof: Seq<H256>) -> Seq<Seq<u8>> {
    Seq::new(proof.len(), |i: int| proof[i]@)
}

/// Hashes two nodes into their parent.
pub fn hash_children(left: &H256, right: &H256) -> (out: H256)
    ensures
        out@ == hash_pair(left@, right@),
{
    let mut joined: Vec<u8> = Vec::new();
    append_bytes(&mut joined, left.bytes.as_slice());
    append_bytes(&mut joined, right.bytes.as_slice());
    hash_bytes(joined.as_slice())
}

/// Folds `leaf` upward through the tree along `proof`. A proof that does
/// not hold exactly `TREE_DEPTH` siblings is turned down as `MalformedProof`.
pub fn compute_root(leaf: &H256, index: u32, proof: &[H256]) -> (out: Result<H256, ReplicaError>)
    ensures
        proof@.len() == TREE_DEPTH ==> out is Ok && out.unwrap()@ == spec_compute_root(
            leaf@,
            index,
            sibling_path(proof@),
        ),
        proof@.len() != TREE_DEPTH ==> out == Err::<H256, ReplicaError>(ReplicaError::MalformedProof),
{
    if proof.len() != TREE_DEPTH {
        return Err(ReplicaError::MalformedProof);
    }
    let mut current: H256 = *leaf;
    let mut position: u32 = index;
    let mut level: usize = 0;
    while level < TREE_DEPTH
        invariant
            level <= TREE_DEPTH,
            proof@.len() == TREE_DEPTH,
            position as nat == path_position(index as nat, level as nat),
            current@ == branch_root(leaf@, index as nat, sibling_path(proof@), level as nat),
        decreases TREE_DEPTH - level,
    {
        let sibling = &proof[level];
        if position % 2 == 1 {
            current = hash_children(sibling, &current);
        } else {
            current = hash_children(&current, sibling);
        }
        position = position / 2;
        level = level + 1;
    }
    Ok(current)
}

/// The hash of the node at `position` of `level` in the tree over `leaves`;
/// level 0 holds the leaves.
pub open spec fn tree_node(leaves: spec_fn(nat) -> Seq<u8>, level: nat, position: nat) -> Seq<u8>
    decreases level,
{
    if level == 0 {
        leaves(position)
    } else {
        hash_pair(
            tree_node(leaves, (level - 1) as nat, 2 * position),
            tree_node(leaves, (level - 1) as nat, 2 * position + 1),
        )
    }
}

/// The root of the tree over `leaves`.
pub open spec fn tree_root(leaves: spec_fn(nat) -> Seq<u8>) -> Seq<u8> {
    tree_node(leaves, TREE_DEPTH as nat, 0)
}

/// The position of the other child of the same parent.
pub open spec fn sibling_position(position: nat) -> nat {
    if position % 2 == 0 {
        position + 1
    } else {
        (position - 1) as nat
    }
}

/// Whether `proof` is the sibling path of leaf `index` in the tree over `leaves`.
pub open spec fn honest_proof(leaves: spec_fn(nat) -> Seq<u8>, index: nat, proof: Seq<Seq<u8>>) -> bool {
    &&& proof.len() == TREE_DEPTH
    &&& forall|level: int|
        0 <= level < TREE_DEPTH ==> #[trigger] proof[level] == tree_node(
            leaves,
            level as nat,
            sibling_position(path_position(index, level as nat)),
        )
}

/// Along an honest proof, the fold reaches at every level the tree's own
/// node above the leaf.
pub proof fn lemma_branch_follows_tree(
    leaves: spec_fn(nat) -> Seq<u8>,
    index: nat,
    proof: Seq<Seq<u8>>,
    levels: nat,
)
    requires
        honest_proof(leaves, index, proof),
        levels <= TREE_DEPTH,
    ensures
        branch_root(leaves(index), index, proof, levels) == tree_node(
            leaves,
            levels,
            path_position(index, levels),
        ),
    decreases levels,
{
    if levels > 0 {
        let below = (levels - 1) as nat;
        lemma_branch_follows_tree(leaves, index, proof, below);
        let position = path_position(index, below);
        assert(proof[below as int] == tree_node(leaves, below, sibling_position(position)));
        assert(2 * (position / 2) + position % 2 == position);
    }
}

/// Dropping `level` bits of an index below `2^bits` leaves a position below
/// `2^(bits - level)`.
pub proof fn lemma_path_position_bound(index: nat, level: nat, bits: nat)
    requires
        level <= bits,
        index < pow2(bits),
    ensures
        path_position(index, level) < pow2((bits - level) as nat),
    decreases level,
{
    if level > 0 {
        lemma_path_position_bound(index, (level - 1) as nat, bits);
        lemma_pow2_unfold((bits - level + 1) as nat);
    }
}

/// A proof honestly derived from a tree leads from the leaf at `index` to
/// that tree's root.
pub proof fn lemma_honest_proof_gives_root(
    leaves: spec_fn(nat) -> Seq<u8>,
    index: u32,
    proof: Seq<Seq<u8>>,
)
    requires
        honest_proof(leaves, index as nat, proof),
    ensures
        spec_compute_root(leaves(index as nat), index, proof) == tree_root(leaves),
{
    lemma_branch_follows_tree(leaves, index as nat, proof, TREE_DEPTH as nat);
    lemma2_to64();
    lemma_path_position_bound(index as nat, 32, 32);
}

} // verus!
