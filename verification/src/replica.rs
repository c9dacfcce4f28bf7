//! The replica: the mirrored commitment, the optimistic confirmation of
//! updates, the door that admits proven messages once, and the halt on a
//! proven equivocation.

use vstd::prelude::*;
use crate::crypto::{hash_bytes, keccak256_digest, recover_signer, spec_recover_signer};
use crate::encoding::{append_bytes, message_encoding};
use crate::merkle::{compute_root, sibling_path, spec_compute_root};
use crate::types::{
    Address, DoubleUpdate, H256, MessageId, Pending, ReplicaError, SignedUpdate, StampedMessage,
    State, Update, UpdateView, TREE_DEPTH,
};

verus! {

/// The state of a replica as contracts speak of it.
pub struct ReplicaState {
    /// The network on which this replica lives.
    pub local_domain: u32,
    /// The remote network whose history is mirrored.
    pub remote_domain: u32,
    /// The authority whose signature an update needs.
    pub updater: Seq<u8>,
    /// The delay between the submission of an update and its confirmation.
    pub optimistic_delay: u64,
    pub current_root: Seq<u8>,
    pub previous_root: Seq<u8>,
    /// The root that waits for confirmation, and the time from which it may be confirmed.
    pub pending: Option<(Seq<u8>, u64)>,
    /// The messages delivered so far, each as its leaf and index.
    pub processed: Set<(Seq<u8>, u32)>,
    pub phase: State,
}

/// Why an update is turned down in state `s`, or `None` where it is accepted.
/// `signer` is what signer recovery gave for it.
pub open spec fn update_verdict(s: ReplicaState, signer: Option<Seq<u8>>, update: UpdateView) -> Option<ReplicaError> {
    if s.phase == State::Failed {
        Some(ReplicaError::ReplicaHalted)
    } else if signer is None {
        Some(ReplicaError::InvalidSignature)
    } else if signer != Some(s.updater) {
        Some(ReplicaError::UnauthorizedSigner)
    } else if update.origin_domain != s.remote_domain {
        Some(ReplicaError::DomainMismatch)
    } else if update.previous_root != s.current_root && !(s.pending is Some
        && update.previous_root == s.pending.unwrap().0) {
        Some(ReplicaError::NonContiguousUpdate)
    } else {
        None
    }
}

/// The state after an update was offered at time `now`.
pub open spec fn after_update(s: ReplicaState, signer: Option<Seq<u8>>, update: UpdateView, now: u64) -> ReplicaState {
    if update_verdict(s, signer, update) is None {
        ReplicaState { pending: Some((update.new_root, (now + s.optimistic_delay) as u64)), ..s }
    } else {
        s
    }
}

/// Whether the pending update of `s` can be confirmed at time `now`.
pub open spec fn confirmable(s: ReplicaState, now: u64) -> bool {
    s.pending is Some && now >= s.pending.unwrap().1
}

/// Why a confirmation is turned down at time `now`, or `None` where it succeeds.
pub open spec fn confirm_verdict(s: ReplicaState, now: u64) -> Option<ReplicaError> {
    if s.phase == State::Failed {
        Some(ReplicaError::ReplicaHalted)
    } else if s.pending is None {
        Some(ReplicaError::NoPendingUpdate)
    } else if now < s.pending.unwrap().1 {
        Some(ReplicaError::NotYetConfirmable)
    } else {
        None
    }
}

/// The state after a confirmation was attempted at time `now`.
pub open spec fn after_confirm(s: ReplicaState, now: u64) -> ReplicaState {
    if confirm_verdict(s, now) is None {
        ReplicaState {
            previous_root: s.current_root,
            current_root: s.pending.unwrap().0,
            pending: None,
            ..s
        }
    } else {
        s
    }
}

/// Why a message is turned down, or `None` where it is admitted. `root` is
/// what its proof leads to, `None` for a proof of the wrong length.
pub open spec fn process_verdict(
    s: ReplicaState,
    leaf: Seq<u8>,
    index: u32,
    root: Option<Seq<u8>>,
    destination: u32,
) -> Option<ReplicaError> {
    if s.phase == State::Failed {
        Some(ReplicaError::ReplicaHalted)
    } else if root is None {
        Some(ReplicaError::MalformedProof)
    } else if root.unwrap() != s.current_root && root.unwrap() != s.previous_root {
        Some(ReplicaError::ProofMismatch)
    } else if s.processed.contains((leaf, index)) {
        Some(ReplicaError::AlreadyProcessed)
    } else if destination != s.local_domain {
        Some(ReplicaError::WrongDestination)
    } else {
        None
    }
}

/// The state after a message was offered.
pub open spec fn after_process(
    s: ReplicaState,
    leaf: Seq<u8>,
    index: u32,
    root: Option<Seq<u8>>,
    destination: u32,
) -> ReplicaState {
    if process_verdict(s, leaf, index, root, destination) is None {
        ReplicaState { processed: s.processed.insert((leaf, index)), ..s }
    } else {
        s
    }
}

/// Why a claim of equivocation is turned down, or `None` where it is proven.
pub open spec fn double_update_verdict(
    s: ReplicaState,
    first_signer: Option<Seq<u8>>,
    second_signer: Option<Seq<u8>>,
    first: UpdateView,
    second: UpdateView,
) -> Option<ReplicaError> {
    if s.phase == State::Failed {
        Some(ReplicaError::ReplicaHalted)
    } else if first_signer != Some(s.updater) || second_signer != Some(s.updater) {
        Some(ReplicaError::UnauthorizedSigner)
    } else if first.previous_root != second.previous_root || first.new_root == second.new_root {
        Some(ReplicaError::NotEquivocation)
    } else {
        None
    }
}

/// The state after a claim of equivocation was offered.
pub open spec fn after_double_update(
    s: ReplicaState,
    first_signer: Option<Seq<u8>>,
    second_signer: Option<Seq<u8>>,
    first: UpdateView,
    second: UpdateView,
) -> ReplicaState {
    if double_update_verdict(s, first_signer, second_signer, first, second) is None {
        ReplicaState { phase: State::Failed, pending: None, ..s }
    } else {
        s
    }
}

/// What holds of the state of every replica: one that has failed has
/// nothing pending.
pub open spec fn state_invariant(s: ReplicaState) -> bool {
    s.phase == State::Failed ==> s.pending is None
}

/// The outcome of an operation with the given verdict.
pub open spec fn outcome(verdict: Option<ReplicaError>) -> Result<(), ReplicaError> {
    match verdict {
        Some(e) => Err(e),
        None => Ok(()),
    }
}

/// A recovered signer as its bytes.
pub open spec fn signer_view(signer: Option<Address>) -> Option<Seq<u8>> {
    match signer {
        Some(a) => Some(a@),
        None => None,
    }
}

/// The root of a proof as its bytes, `None` for a malformed proof.
pub open spec fn root_view(root: Option<H256>) -> Option<Seq<u8>> {
    match root {
        Some(h) => Some(h@),
        None => None,
    }
}

/// What the proof of a message leads to, `None` where it has the wrong length.
pub open spec fn spec_proof_root(leaf: Seq<u8>, index: u32, proof: Seq<H256>) -> Option<Seq<u8>> {
    if proof.len() == TREE_DEPTH {
        Some(spec_compute_root(leaf, index, sibling_path(proof)))
    } else {
        None
    }
}

/// The leaf that a message hashes to.
pub open spec fn spec_leaf(message: StampedMessage) -> Seq<u8> {
    keccak256_digest(message_encoding(message.origin, message.destination, message.nonce, message.body@))
}

/// The set of the identities in a list of delivered messages.
pub open spec fn processed_set(list: Seq<MessageId>) -> Set<(Seq<u8>, u32)> {
    Set::new(
        |id: (Seq<u8>, u32)|
            exists|i: int| 0 <= i < list.len() && #[trigger] list[i].leaf@ == id.0 && list[i].index == id.1,
    )
}

/// Whether no identity occurs twice in a list of delivered messages.
pub open spec fn no_repeats(list: Seq<MessageId>) -> bool {
    forall|i: int, j: int|
        0 <= i < j < list.len() ==> !(#[trigger] list[i].leaf@ == #[trigger] list[j].leaf@ && list[i].index
            == list[j].index)
}

/// Remembering one more message adds its identity to the set, and keeps the
/// list free of repeats where the identity was not in it.
pub proof fn lemma_push_adds_identity(list: Seq<MessageId>, id: MessageId)
    ensures
        processed_set(list.push(id)) == processed_set(list).insert((id.leaf@, id.index)),
        no_repeats(list) && !processed_set(list).contains((id.leaf@, id.index)) ==> no_repeats(
            list.push(id),
        ),
{
    let longer = list.push(id);
    assert forall|p: (Seq<u8>, u32)|
        processed_set(longer).contains(p) <==> processed_set(list).insert((id.leaf@, id.index)).contains(
            p,
        ) by {
        if processed_set(longer).contains(p) {
            let i = choose|i: int|
                0 <= i < longer.len() && #[trigger] longer[i].leaf@ == p.0 && longer[i].index == p.1;
            if i < list.len() {
                assert(list[i].leaf@ == p.0);
            }
        }
        if processed_set(list).contains(p) {
            let i = choose|i: int| 0 <= i < list.len() && #[trigger] list[i].leaf@ == p.0 && list[i].index == p.1;
            assert(longer[i].leaf@ == p.0);
        }
        if p == (id.leaf@, id.index) {
            assert(longer[list.len() as int].leaf@ == p.0);
        }
    }
    if no_repeats(list) && !processed_set(list).contains((id.leaf@, id.index)) {
        assert forall|i: int, j: int| 0 <= i < j < longer.len() implies !(#[trigger] longer[i].leaf@
            == #[trigger] longer[j].leaf@ && longer[i].index == longer[j].index) by {
            assert(list[i].leaf@ == longer[i].leaf@);
            if j < list.len() {
                assert(list[j].leaf@ == longer[j].leaf@);
            }
        }
    }
}

/// A replica of one remote network's message history.
#[derive(Debug)]
pub struct ReplicaContract {
    name: String,
    domain: u32,
    remote_domain: u32,
    updater: Address,
    optimistic_delay: u64,
    current_root: H256,
    previous_root: H256,
    pending: Option<Pending>,
    processed: Vec<MessageId>,
    phase: State,
}

impl View for ReplicaContract {
    type V = ReplicaState;

    closed spec fn view(&self) -> ReplicaState {
        ReplicaState {
            local_domain: self.domain,
            remote_domain: self.remote_domain,
            updater: self.updater@,
            optimistic_delay: self.optimistic_delay,
            current_root: self.current_root@,
            previous_root: self.previous_root@,
            pending: match self.pending {
                Some(p) => Some((p.new_root@, p.confirm_at)),
                None => None,
            },
            processed: processed_set(self.processed@),
            phase: self.phase,
        }
    }
}

impl ReplicaContract {
    /// The name under which the replica was created.
    pub closed spec fn spec_name(&self) -> Seq<char> {
        self.name@
    }

    /// What holds of every replica: no message is remembered twice, and a
    /// failed replica has no pending update.
    pub closed spec fn wf(&self) -> bool {
        &&& no_repeats(self.processed@)
        &&& self.phase == State::Failed ==> self.pending is None
    }

    /// A well-formed replica is in a state that meets the state invariant.
    pub proof fn lemma_wf_gives_state_invariant(&self)
        requires
            self.wf(),
        ensures
            state_invariant(self@),
    {
    }

    /// A replica on network `domain` that mirrors `remote_domain` under the
    /// authority `updater`, starting at `root` with nothing pending and
    /// nothing delivered. Until the first confirmation the previous root is
    /// the starting root itself.
    pub fn new(
        name: &str,
        domain: u32,
        remote_domain: u32,
        updater: Address,
        root: H256,
        optimistic_delay: u64,
    ) -> (out: Self)
        ensures
            out.wf(),
            out.spec_name() == name@,
            out@ == (ReplicaState {
                local_domain: domain,
                remote_domain,
                updater: updater@,
                optimistic_delay,
                current_root: root@,
                previous_root: root@,
                pending: None,
                processed: Set::empty(),
                phase: State::Waiting,
            }),
    {
        let out = ReplicaContract {
            name: name.to_owned(),
            domain,
            remote_domain,
            updater,
            optimistic_delay,
            current_root: root,
            previous_root: root,
            pending: None,
            processed: Vec::new(),
            phase: State::Waiting,
        };
        assert(out@.processed =~= Set::empty());
        out
    }

    /// The name of the replica.
    pub fn name(&self) -> (out: &str)
        ensures
            out@ == self.spec_name(),
    {
        self.name.as_str()
    }

    /// The network on which the replica lives, to which its messages are addressed.
    pub fn destination_domain(&self) -> (out: u32)
        ensures
            out == self@.local_domain,
    {
        self.domain
    }

    /// The remote network whose history is mirrored.
    pub fn remote_domain(&self) -> (out: u32)
        ensures
            out == self@.remote_domain,
    {
        self.remote_domain
    }

    /// The authority whose signature an update needs.
    pub fn updater(&self) -> (out: Address)
        ensures
            out@ == self@.updater,
    {
        self.updater
    }

    /// The delay between the submission of an update and its confirmation.
    pub fn optimistic_delay(&self) -> (out: u64)
        ensures
            out == self@.optimistic_delay,
    {
        self.optimistic_delay
    }

    /// The phase of the replica.
    pub fn state(&self) -> (out: State)
        ensures
            out == self@.phase,
    {
        self.phase
    }

    /// The confirmed root.
    pub fn current_root(&self) -> (out: H256)
        ensures
            out@ == self@.current_root,
    {
        self.current_root
    }

    /// The root that was current before the last confirmation.
    pub fn previous_root(&self) -> (out: H256)
        ensures
            out@ == self@.previous_root,
    {
        self.previous_root
    }

    /// The update that waits for confirmation, if there is one.
    pub fn next_pending(&self) -> (out: Option<Pending>)
        ensures
            match out {
                Some(p) => self@.pending == Some((p.new_root@, p.confirm_at)),
                None => self@.pending is None,
            },
    {
        self.pending
    }

    /// Whether the message with this leaf and index was delivered before.
    pub fn is_processed(&self, leaf: &H256, index: u32) -> (out: bool)
        ensures
            out == self@.processed.contains((leaf@, index)),
    {
        let mut i: usize = 0;
        while i < self.processed.len()
            invariant
                i <= self.processed@.len(),
                forall|k: int|
                    0 <= k < i ==> !(#[trigger] self.processed@[k].leaf@ == leaf@ && self.processed@[k].index
                        == index),
            decreases self.processed@.len() - i,
        {
            if self.processed[i].index == index && self.processed[i].leaf.same(leaf) {
                return true;
            }
            i = i + 1;
        }
        false
    }

    /// Whether a pending update exists and its delay has elapsed at `now`.
    pub fn can_confirm(&self, now: u64) -> (out: bool)
        ensures
            out == confirmable(self@, now),
    {
        match self.pending {
            Some(p) => now >= p.confirm_at,
            None => false,
        }
    }

    /// Promotes the pending root to current at time `now`.
    pub fn confirm(&mut self, now: u64) -> (out: Result<(), ReplicaError>)
        requires
            old(self).wf(),
        ensures
            final(self).wf(),
            final(self).spec_name() == old(self).spec_name(),
            out == outcome(confirm_verdict(old(self)@, now)),
            final(self)@ == after_confirm(old(self)@, now),
    {
        if self.phase == State::Failed {
            return Err(ReplicaError::ReplicaHalted);
        }
        match self.pending {
            None => Err(ReplicaError::NoPendingUpdate),
            Some(p) => {
                if now < p.confirm_at {
                    Err(ReplicaError::NotYetConfirmable)
                } else {
                    self.previous_root = self.current_root;
                    self.current_root = p.new_root;
                    self.pending = None;
                    Ok(())
                }
            },
        }
    }

    /// Decides on an update whose signer recovery gave `signer`, at time
    /// `now`, and records it as pending where it is accepted.
    pub fn apply_update(&mut self, signer: Option<Address>, update: &Update, now: u64) -> (out: Result<
        (),
        ReplicaError,
    >)
        requires
            old(self).wf(),
            now + old(self)@.optimistic_delay <= u64::MAX,
        ensures
            final(self).wf(),
            final(self).spec_name() == old(self).spec_name(),
            out == outcome(update_verdict(old(self)@, signer_view(signer), update@)),
            final(self)@ == after_update(old(self)@, signer_view(signer), update@, now),
    {
        if self.phase == State::Failed {
            return Err(ReplicaError::ReplicaHalted);
        }
        match signer {
            None => {
                return Err(ReplicaError::InvalidSignature);
            },
            Some(a) => {
                if !a.same(&self.updater) {
                    return Err(ReplicaError::UnauthorizedSigner);
                }
            },
        }
        if update.origin_domain != self.remote_domain {
            return Err(ReplicaError::DomainMismatch);
        }
        let extends_pending = match self.pending {
            Some(p) => update.previous_root.same(&p.new_root),
            None => false,
        };
        if !update.previous_root.same(&self.current_root) && !extends_pending {
            return Err(ReplicaError::NonContiguousUpdate);
        }
        self.pending = Some(Pending { new_root: update.new_root, confirm_at: now + self.optimistic_delay });
        Ok(())
    }

    /// Validates a signed update at time `now` and records it as pending.
    pub fn submit_update(&mut self, signed: &SignedUpdate, now: u64) -> (out: Result<(), ReplicaError>)
        requires
            old(self).wf(),
            now + old(self)@.optimistic_delay <= u64::MAX,
        ensures
            final(self).wf(),
            final(self).spec_name() == old(self).spec_name(),
            out == outcome(
                update_verdict(old(self)@, spec_recover_signer(signed.update@, signed.signature@), signed.update@),
            ),
            final(self)@ == after_update(
                old(self)@,
                spec_recover_signer(signed.update@, signed.signature@),
                signed.update@,
                now,
            ),
    {
        let signer = match recover_signer(&signed.update, &signed.signature) {
            Ok(a) => Some(a),
            Err(_) => None,
        };
        self.apply_update(signer, &signed.update, now)
    }

    /// Decides on a message with the given leaf and index whose proof led
    /// to `root` (`None` for a proof of the wrong length), and remembers it
    /// as delivered where it is admitted.
    pub fn mark_processed(&mut self, leaf: &H256, index: u32, root: Option<H256>, destination: u32) -> (out:
        Result<MessageId, ReplicaError>)
        requires
            old(self).wf(),
        ensures
            final(self).wf(),
            final(self).spec_name() == old(self).spec_name(),
            match process_verdict(old(self)@, leaf@, index, root_view(root), destination) {
                Some(e) => out == Err::<MessageId, ReplicaError>(e),
                None => out is Ok && out.unwrap().leaf@ == leaf@ && out.unwrap().index == index,
            },
            final(self)@ == after_process(old(self)@, leaf@, index, root_view(root), destination),
    {
        if self.phase == State::Failed {
            return Err(ReplicaError::ReplicaHalted);
        }
        match root {
            None => {
                return Err(ReplicaError::MalformedProof);
            },
            Some(r) => {
                if !r.same(&self.current_root) && !r.same(&self.previous_root) {
                    return Err(ReplicaError::ProofMismatch);
                }
            },
        }
        if self.is_processed(leaf, index) {
            return Err(ReplicaError::AlreadyProcessed);
        }
        if destination != self.domain {
            return Err(ReplicaError::WrongDestination);
        }
        let id = MessageId { leaf: *leaf, index };
        self.processed.push(id);
        proof {
            lemma_push_adds_identity(old(self).processed@, id);
        }
        Ok(id)
    }

    /// Verifies the inclusion proof of a message against the current or the
    /// previous root and remembers the message as delivered. What a
    /// downstream handler later makes of the message never undoes this.
    pub fn verify_and_mark(&mut self, message: &StampedMessage, proof: &[H256], index: u32) -> (out: Result<
        MessageId,
        ReplicaError,
    >)
        requires
            old(self).wf(),
        ensures
            final(self).wf(),
            final(self).spec_name() == old(self).spec_name(),
            match process_verdict(
                old(self)@,
                spec_leaf(*message),
                index,
                spec_proof_root(spec_leaf(*message), index, proof@),
                message.destination,
            ) {
                Some(e) => out == Err::<MessageId, ReplicaError>(e),
                None => out is Ok && out.unwrap().leaf@ == spec_leaf(*message) && out.unwrap().index == index,
            },
            final(self)@ == after_process(
                old(self)@,
                spec_leaf(*message),
                index,
                spec_proof_root(spec_leaf(*message), index, proof@),
                message.destination,
            ),
    {
        let encoded = message.to_vec();
        let leaf = hash_bytes(encoded.as_slice());
        let root = match compute_root(&leaf, index, proof) {
            Ok(r) => Some(r),
            Err(_) => None,
        };
        self.mark_processed(&leaf, index, root, message.destination)
    }

    /// Proves and consumes a message in one step, and hands back the payload
    /// that is now due to the downstream handler.
    pub fn prove_and_process(&mut self, message: &StampedMessage, proof: &[H256], index: u32) -> (out: Result<
        Vec<u8>,
        ReplicaError,
    >)
        requires
            old(self).wf(),
        ensures
            final(self).wf(),
            final(self).spec_name() == old(self).spec_name(),
            match process_verdict(
                old(self)@,
                spec_leaf(*message),
                index,
                spec_proof_root(spec_leaf(*message), index, proof@),
                message.destination,
            ) {
                Some(e) => out == Err::<Vec<u8>, ReplicaError>(e),
                None => out is Ok && out.unwrap()@ == message.body@,
            },
            final(self)@ == after_process(
                old(self)@,
                spec_leaf(*message),
                index,
                spec_proof_root(spec_leaf(*message), index, proof@),
                message.destination,
            ),
    {
        match self.verify_and_mark(message, proof, index) {
            Ok(_) => {
                let mut payload: Vec<u8> = Vec::new();
                append_bytes(&mut payload, message.body.as_slice());
                Ok(payload)
            },
            Err(e) => Err(e),
        }
    }

    /// Decides on a claim of equivocation whose two signer recoveries gave
    /// `first_signer` and `second_signer`, and halts the replica for good
    /// where the claim is proven.
    pub fn apply_double_update(
        &mut self,
        first_signer: Option<Address>,
        second_signer: Option<Address>,
        first: &Update,
        second: &Update,
    ) -> (out: Result<(), ReplicaError>)
        requires
            old(self).wf(),
        ensures
            final(self).wf(),
            final(self).spec_name() == old(self).spec_name(),
            out == outcome(
                double_update_verdict(
                    old(self)@,
                    signer_view(first_signer),
                    signer_view(second_signer),
                    first@,
                    second@,
                ),
            ),
            final(self)@ == after_double_update(
                old(self)@,
                signer_view(first_signer),
                signer_view(second_signer),
                first@,
                second@,
            ),
    {
        if self.phase == State::Failed {
            return Err(ReplicaError::ReplicaHalted);
        }
        let first_ok = match first_signer {
            Some(a) => a.same(&self.updater),
            None => false,
        };
        let second_ok = match second_signer {
            Some(a) => a.same(&self.updater),
            None => false,
        };
        if !first_ok || !second_ok {
            return Err(ReplicaError::UnauthorizedSigner);
        }
        if !first.previous_root.same(&second.previous_root) || first.new_root.same(&second.new_root) {
            return Err(ReplicaError::NotEquivocation);
        }
        self.phase = State::Failed;
        self.pending = None;
        Ok(())
    }

    /// Checks two signed updates for a contradiction by the authority and
    /// halts the replica for good where there is one.
    pub fn submit_double_update(&mut self, double: &DoubleUpdate) -> (out: Result<(), ReplicaError>)
        requires
            old(self).wf(),
        ensures
            final(self).wf(),
            final(self).spec_name() == old(self).spec_name(),
            out == outcome(
                double_update_verdict(
                    old(self)@,
                    spec_recover_signer(double.0.update@, double.0.signature@),
                    spec_recover_signer(double.1.update@, double.1.signature@),
                    double.0.update@,
                    double.1.update@,
                ),
            ),
            final(self)@ == after_double_update(
                old(self)@,
                spec_recover_signer(double.0.update@, double.0.signature@),
                spec_recover_signer(double.1.update@, double.1.signature@),
                double.0.update@,
                double.1.update@,
            ),
    {
        let first_signer = match recover_signer(&double.0.update, &double.0.signature) {
            Ok(a) => Some(a),
            Err(_) => None,
        };
        let second_signer = match recover_signer(&double.1.update, &double.1.signature) {
            Ok(a) => Some(a),
            Err(_) => None,
        };
        self.apply_double_update(first_signer, second_signer, &double.0.update, &double.1.update)
    }
}

} // verus!
