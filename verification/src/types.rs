//! Plain data of the protocol: hashes, identities, updates and messages.

use vstd::prelude::*;

verus! {

/// Number of levels of the remote message tree, and so of siblings in a proof.
pub const TREE_DEPTH: usize = 32;

/// A 32-byte hash.
#[derive(Clone, Copy, Debug, PartialEq, Eq, Hash)]
pub struct H256 {
    pub bytes: [u8; 32],
}

impl View for H256 {
    type V = Seq<u8>;

    open spec fn view(&self) -> Seq<u8> {
        self.bytes@
    }
}

impl H256 {
    /// The hash that holds the given bytes.
    pub fn from_bytes(bytes: [u8; 32]) -> (out: H256)
        ensures
            out@ == bytes@,
    {
        H256 { bytes }
    }

    /// The bytes of the hash.
    pub fn to_fixed_bytes(&self) -> (out: [u8; 32])
        ensures
            out@ == self@,
    {
        self.bytes
    }

    /// Whether two hashes hold the same bytes.
    pub fn same(&self, other: &H256) -> (out: bool)
        ensures
            out == (self@ == other@),
    {
        let mut i: usize = 0;
        while i < 32
            invariant
                i <= 32,
                forall|k: int| 0 <= k < i ==> self.bytes@[k] == other.bytes@[k],
            decreases 32 - i,
        {
            if self.bytes[i] != other.bytes[i] {
                return false;
            }
            i = i + 1;
        }
        assert(self@ =~= other@);
        true
    }
}


/// The identity of a signer: a 20-byte account address.
#[derive(Clone, Copy, Debug, PartialEq, Eq, Hash)]
pub struct Address {
    pub bytes: [u8; 20],
}

impl View for Address {
    type V = Seq<u8>;

    open spec fn view(&self) -> Seq<u8> {
        self.bytes@
    }
}

impl Address {
    /// The address that holds the given bytes.
    pub fn from_bytes(bytes: [u8; 20]) -> (out: Address)
        ensures
            out@ == bytes@,
    {
        Address { bytes }
    }

    /// Whether two addresses hold the same bytes.
    pub fn same(&self, other: &Address) -> (out: bool)
        ensures
            out == (self@ == other@),
    {
        let mut i: usize = 0;
        while i < 20
            invariant
                i <= 20,
                forall|k: int| 0 <= k < i ==> self.bytes@[k] == other.bytes@[k],
            decreases 20 - i,
        {
            if self.bytes[i] != other.bytes[i] {
                return false;
            }
            i = i + 1;
        }
        assert(self@ =~= other@);
        true
    }
}

/// Why an operation was turned down.
#[derive(Clone, Copy, Debug, PartialEq, Eq, Structural)]
pub enum ReplicaError {
    /// No signer can be recovered from the signature.
    InvalidSignature,
    /// The sibling path does not have exactly `TREE_DEPTH` elements.
    MalformedProof,
    /// The signer is not the configured authority.
    UnauthorizedSigner,
    /// The update speaks of another remote network.
    DomainMismatch,
    /// The update builds neither on the current root nor on the pending one.
    NonContiguousUpdate,
    /// There is nothing to confirm.
    NoPendingUpdate,
    /// The optimistic delay has not elapsed yet.
    NotYetConfirmable,
    /// The proof leads to a root that is neither current nor previous.
    ProofMismatch,
    /// The message was delivered before.
    AlreadyProcessed,
    /// The message is addressed to another network.
    WrongDestination,
    /// The two updates do not contradict each other.
    NotEquivocation,
    /// The replica has failed for good.
    ReplicaHalted,
    /// The ledger reported something outside the protocol.
    ProtocolInvariantViolation,
    /// The ledger could not be reached; the call may be tried again.
    CommunicationError,
}

/// The phase of a replica.
#[derive(Clone, Copy, Debug, PartialEq, Eq, Structural)]
pub enum State {
    /// Normal operation.
    Waiting,
    /// Halted after a proven equivocation; never left again.
    Failed,
}

/// An ECDSA signature with its recovery value.
#[derive(Clone, Copy, Debug, PartialEq, Eq)]
pub struct Signature {
    pub r: [u8; 32],
    pub s: [u8; 32],
    pub v: u64,
}

/// What contracts say of a `Signature`.
pub struct SignatureView {
    pub r: Seq<u8>,
    pub s: Seq<u8>,
    pub v: u64,
}

impl View for Signature {
    type V = SignatureView;

    open spec fn view(&self) -> SignatureView {
        SignatureView { r: self.r@, s: self.s@, v: self.v }
    }
}

/// A claimed step of the remote tree's root.
#[derive(Clone, Copy, Debug, PartialEq, Eq)]
pub struct Update {
    pub origin_domain: u32,
    pub previous_root: H256,
    pub new_root: H256,
}

/// What contracts say of an `Update`.
pub struct UpdateView {
    pub origin_domain: u32,
    pub previous_root: Seq<u8>,
    pub new_root: Seq<u8>,
}

impl View for Update {
    type V = UpdateView;

    open spec fn view(&self) -> UpdateView {
        UpdateView {
            origin_domain: self.origin_domain,
            previous_root: self.previous_root@,
            new_root: self.new_root@,
        }
    }
}

/// An update together with the authority's signature over it.
#[derive(Clone, Copy, Debug, PartialEq, Eq)]
pub struct SignedUpdate {
    pub update: Update,
    pub signature: Signature,
}

/// Two signed updates offered as evidence that the authority contradicted itself.
#[derive(Clone, Copy, Debug, PartialEq, Eq)]
pub struct DoubleUpdate(pub SignedUpdate, pub SignedUpdate);

/// One cross-chain message: a leaf of the remote tree.
#[derive(Clone, Debug, PartialEq, Eq)]
pub struct StampedMessage {
    pub origin: u32,
    pub destination: u32,
    pub nonce: u32,
    pub body: Vec<u8>,
}

/// A root that waits for confirmation, and the time from which it may be confirmed.
#[derive(Clone, Copy, Debug, PartialEq, Eq)]
pub struct Pending {
    pub new_root: H256,
    pub confirm_at: u64,
}

/// The identity under which a delivered message is remembered.
#[derive(Clone, Copy, Debug, PartialEq, Eq)]
pub struct MessageId {
    pub leaf: H256,
    pub index: u32,
}

} // verus!
