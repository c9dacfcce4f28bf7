//! Reading what the ledger reports of a deployed replica: its phase code,
//! its pending update and the update records it has emitted.

use vstd::prelude::*;
use crate::types::{H256, Pending, ReplicaError, Signature, SignatureView, SignedUpdate, State, Update, UpdateView};

verus! {

/// An update record as the ledger emits it.
#[derive(Clone, Debug, PartialEq, Eq)]
pub struct UpdateEvent {
    pub origin_domain: u32,
    pub old_root: [u8; 32],
    pub new_root: [u8; 32],
    pub signature: Vec<u8>,
}

/// The update that a record speaks of.
pub open spec fn event_update(event: UpdateEvent) -> UpdateView {
    UpdateView { origin_domain: event.origin_domain, previous_root: event.old_root@, new_root: event.new_root@ }
}

/// The signature that a record of 65 signature bytes carries.
pub open spec fn event_signature(event: UpdateEvent) -> SignatureView {
    SignatureView {
        r: event.signature@.subrange(0, 32),
        s: event.signature@.subrange(32, 64),
        v: event.signature@[64] as u64,
    }
}

impl State {
    /// The phase for a code reported by the ledger: 0 is `Waiting`, 1 is
    /// `Failed`, and any other code is a `ProtocolInvariantViolation`.
    pub fn from_code(code: u8) -> (out: Result<State, ReplicaError>)
        ensures
            code == 0 ==> out == Ok::<State, ReplicaError>(State::Waiting),
            code == 1 ==> out == Ok::<State, ReplicaError>(State::Failed),
            code > 1 ==> out == Err::<State, ReplicaError>(ReplicaError::ProtocolInvariantViolation),
    {
        if code == 0 {
            Ok(State::Waiting)
        } else if code == 1 {
            Ok(State::Failed)
        } else {
            Err(ReplicaError::ProtocolInvariantViolation)
        }
    }
}

/// The pending update that the ledger reports as a root and a confirmation
/// time: a time of zero means that nothing is pending.
pub fn pending_from_ledger(root: H256, confirm_at: u64) -> (out: Option<Pending>)
    ensures
        confirm_at == 0 ==> out is None,
        confirm_at != 0 ==> out is Some && out.unwrap().new_root@ == root@ && out.unwrap().confirm_at
            == confirm_at,
{
    if confirm_at == 0 {
        None
    } else {
        Some(Pending { new_root: root, confirm_at })
    }
}

/// The signed update that a record carries. A record whose signature is not
/// 65 bytes long is turned down with `InvalidSignature`.
pub fn signed_update_from_event(event: &UpdateEvent) -> (out: Result<SignedUpdate, ReplicaError>)
    ensures
        event.signature@.len() == 65 ==> out is Ok && out.unwrap().update@ == event_update(*event)
            && out.unwrap().signature@ == event_signature(*event),
        event.signature@.len() != 65 ==> out == Err::<SignedUpdate, ReplicaError>(
            ReplicaError::InvalidSignature,
        ),
{
    match Signature::from_bytes(event.signature.as_slice()) {
        Ok(signature) => {
            let update = Update {
                origin_domain: event.origin_domain,
                previous_root: H256 { bytes: event.old_root },
                new_root: H256 { bytes: event.new_root },
            };
            Ok(SignedUpdate { update, signature })
        },
        Err(e) => Err(e),
    }
}

/// The signed update of the first record that a query for updates by old or
/// by new root has returned, `None` where it returned none.
pub fn first_signed_update(events: &[UpdateEvent]) -> (out: Result<Option<SignedUpdate>, ReplicaError>)
    ensures
        events@.len() == 0 ==> out == Ok::<Option<SignedUpdate>, ReplicaError>(None),
        events@.len() > 0 && events@[0].signature@.len() == 65 ==> out is Ok && out.unwrap() is Some
            && out.unwrap().unwrap().update@ == event_update(events@[0])
            && out.unwrap().unwrap().signature@ == event_signature(events@[0]),
        events@.len() > 0 && events@[0].signature@.len() != 65 ==> out == Err::<
            Option<SignedUpdate>,
            ReplicaError,
        >(ReplicaError::InvalidSignature),
{
    if events.len() == 0 {
        return Ok(None);
    }
    match signed_update_from_event(&events[0]) {
        Ok(signed) => Ok(Some(signed)),
        Err(e) => Err(e),
    }
}

} // verus!
