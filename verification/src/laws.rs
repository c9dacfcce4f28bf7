//! What holds of the replica over several operations.

use vstd::prelude::*;
use crate::replica::{
    after_confirm, after_double_update, after_process, after_update, confirm_verdict, confirmable,
    double_update_verdict, process_verdict, spec_leaf, spec_proof_root, state_invariant, update_verdict,
    ReplicaState,
};
use crate::types::{H256, ReplicaError, StampedMessage, State, UpdateView};

verus! {

/// An update accepted at time `now` waits out the optimistic delay: at any
/// time `early` before `now + delay` a confirmation fails with
/// `NotYetConfirmable` and changes nothing; at any time `late` from then on
/// it succeeds, the new root becomes current and the old one previous; and
/// a further confirmation, at whatever time `again`, finds nothing pending.
pub proof fn lemma_confirm_waits_for_delay(
    s: ReplicaState,
    signer: Option<Seq<u8>>,
    update: UpdateView,
    now: u64,
    early: u64,
    late: u64,
    again: u64,
)
    requires
        update_verdict(s, signer, update) is None,
        now + s.optimistic_delay <= u64::MAX,
        early < now + s.optimistic_delay <= late,
    ensures
        ({
            let submitted = after_update(s, signer, update, now);
            let confirmed = after_confirm(submitted, late);
            &&& submitted.pending == Some((update.new_root, (now + s.optimistic_delay) as u64))
            &&& !confirmable(submitted, early)
            &&& confirm_verdict(submitted, early) == Some(ReplicaError::NotYetConfirmable)
            &&& after_confirm(submitted, early) == submitted
            &&& confirmable(submitted, late)
            &&& confirm_verdict(submitted, late) is None
            &&& confirmed.current_root == update.new_root
            &&& confirmed.previous_root == s.current_root
            &&& confirm_verdict(confirmed, again) == Some(ReplicaError::NoPendingUpdate)
        }),
{
}

/// A message is delivered at most once: after it was admitted, the same
/// leaf and index are turned down with `AlreadyProcessed`, as long as the
/// proof offered with them, whatever it is, still leads to the current or
/// the previous root.
pub proof fn lemma_no_second_delivery(
    s: ReplicaState,
    leaf: Seq<u8>,
    index: u32,
    root: Option<Seq<u8>>,
    destination: u32,
)
    requires
        process_verdict(s, leaf, index, root, destination) is None,
    ensures
        ({
            let delivered = after_process(s, leaf, index, root, destination);
            &&& delivered.processed.contains((leaf, index))
            &&& process_verdict(delivered, leaf, index, root, destination) == Some(
                ReplicaError::AlreadyProcessed,
            )
            &&& after_process(delivered, leaf, index, root, destination) == delivered
        }),
{
}

/// The same message offered twice with the same proof and index: where the
/// first offer is admitted, the second is turned down with `AlreadyProcessed`.
pub proof fn lemma_replay_is_rejected(s: ReplicaState, message: StampedMessage, proof: Seq<H256>, index: u32)
    requires
        process_verdict(
            s,
            spec_leaf(message),
            index,
            spec_proof_root(spec_leaf(message), index, proof),
            message.destination,
        ) is None,
    ensures
        process_verdict(
            after_process(
                s,
                spec_leaf(message),
                index,
                spec_proof_root(spec_leaf(message), index, proof),
                message.destination,
            ),
            spec_leaf(message),
            index,
            spec_proof_root(spec_leaf(message), index, proof),
            message.destination,
        ) == Some(ReplicaError::AlreadyProcessed),
{
    lemma_no_second_delivery(
        s,
        spec_leaf(message),
        index,
        spec_proof_root(spec_leaf(message), index, proof),
        message.destination,
    );
}

/// Two updates by the configured authority that start from the same root
/// and lead to different ones leave the replica failed, with nothing
/// pending; from then on every update, confirmation and message is turned
/// down with `ReplicaHalted`, whatever its arguments.
pub proof fn lemma_equivocation_halts(
    s: ReplicaState,
    first: UpdateView,
    second: UpdateView,
    signer: Option<Seq<u8>>,
    update: UpdateView,
    now: u64,
    leaf: Seq<u8>,
    index: u32,
    root: Option<Seq<u8>>,
    destination: u32,
)
    requires
        first.previous_root == second.previous_root,
        first.new_root != second.new_root,
    ensures
        ({
            let halted = after_double_update(s, Some(s.updater), Some(s.updater), first, second);
            &&& s.phase == State::Waiting ==> double_update_verdict(
                s,
                Some(s.updater),
                Some(s.updater),
                first,
                second,
            ) is None
            &&& halted.phase == State::Failed
            &&& s.phase == State::Waiting ==> halted.pending is None
            &&& update_verdict(halted, signer, update) == Some(ReplicaError::ReplicaHalted)
            &&& confirm_verdict(halted, now) == Some(ReplicaError::ReplicaHalted)
            &&& process_verdict(halted, leaf, index, root, destination) == Some(ReplicaError::ReplicaHalted)
        }),
{
}

/// A failed replica turns down every update, confirmation, message and
/// claim of equivocation with `ReplicaHalted`, whatever the arguments, and
/// none of them changes it: the failed phase is never left.
pub proof fn lemma_failed_is_terminal(
    s: ReplicaState,
    signer: Option<Seq<u8>>,
    second_signer: Option<Seq<u8>>,
    update: UpdateView,
    second: UpdateView,
    now: u64,
    leaf: Seq<u8>,
    index: u32,
    root: Option<Seq<u8>>,
    destination: u32,
)
    requires
        s.phase == State::Failed,
    ensures
        update_verdict(s, signer, update) == Some(ReplicaError::ReplicaHalted),
        after_update(s, signer, update, now) == s,
        confirm_verdict(s, now) == Some(ReplicaError::ReplicaHalted),
        after_confirm(s, now) == s,
        process_verdict(s, leaf, index, root, destination) == Some(ReplicaError::ReplicaHalted),
        after_process(s, leaf, index, root, destination) == s,
        double_update_verdict(s, signer, second_signer, update, second) == Some(ReplicaError::ReplicaHalted),
        after_double_update(s, signer, second_signer, update, second) == s,
{
}

/// No operation leads from the failed phase back to the waiting one, and
/// only a proven equivocation leads into it.
pub proof fn lemma_phase_is_one_way(
    s: ReplicaState,
    signer: Option<Seq<u8>>,
    second_signer: Option<Seq<u8>>,
    update: UpdateView,
    second: UpdateView,
    now: u64,
    leaf: Seq<u8>,
    index: u32,
    root: Option<Seq<u8>>,
    destination: u32,
)
    ensures
        after_update(s, signer, update, now).phase == s.phase,
        after_confirm(s, now).phase == s.phase,
        after_process(s, leaf, index, root, destination).phase == s.phase,
        s.phase == State::Failed ==> after_double_update(s, signer, second_signer, update, second).phase
            == State::Failed,
{
}

/// An update is accepted only by a waiting replica, from its authority, for
/// its remote network, and only where it starts from the current root or
/// from the root that is pending.
pub proof fn lemma_accepted_update_is_contiguous(s: ReplicaState, signer: Option<Seq<u8>>, update: UpdateView)
    requires
        update_verdict(s, signer, update) is None,
    ensures
        s.phase == State::Waiting,
        signer == Some(s.updater),
        update.origin_domain == s.remote_domain,
        update.previous_root == s.current_root || s.pending == Some(
            (update.previous_root, s.pending.unwrap().1),
        ),
{
}

/// A message is admitted only by a waiting replica, for its own network,
/// under a proof that leads to the current or the previous root, and only
/// if it was not delivered before.
pub proof fn lemma_admitted_message_is_proven(
    s: ReplicaState,
    leaf: Seq<u8>,
    index: u32,
    root: Option<Seq<u8>>,
    destination: u32,
)
    requires
        process_verdict(s, leaf, index, root, destination) is None,
    ensures
        s.phase == State::Waiting,
        root == Some(s.current_root) || root == Some(s.previous_root),
        !s.processed.contains((leaf, index)),
        destination == s.local_domain,
        after_process(s, leaf, index, root, destination).processed == s.processed.insert((leaf, index)),
{
}

/// A claim of equivocation is judged alike in either order of its two updates.
pub proof fn lemma_double_update_is_unordered(
    s: ReplicaState,
    first_signer: Option<Seq<u8>>,
    second_signer: Option<Seq<u8>>,
    first: UpdateView,
    second: UpdateView,
)
    ensures
        double_update_verdict(s, first_signer, second_signer, first, second) == double_update_verdict(
            s,
            second_signer,
            first_signer,
            second,
            first,
        ),
        after_double_update(s, first_signer, second_signer, first, second) == after_double_update(
            s,
            second_signer,
            first_signer,
            second,
            first,
        ),
{
}

/// Every operation keeps the state invariant: a replica that has failed
/// never has a pending update.
pub proof fn lemma_state_invariant_is_kept(
    s: ReplicaState,
    signer: Option<Seq<u8>>,
    second_signer: Option<Seq<u8>>,
    update: UpdateView,
    second: UpdateView,
    now: u64,
    leaf: Seq<u8>,
    index: u32,
    root: Option<Seq<u8>>,
    destination: u32,
)
    requires
        state_invariant(s),
    ensures
        state_invariant(after_update(s, signer, update, now)),
        state_invariant(after_confirm(s, now)),
        state_invariant(after_process(s, leaf, index, root, destination)),
        state_invariant(after_double_update(s, signer, second_signer, update, second)),
{
}

} // verus!
