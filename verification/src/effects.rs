//! The events that a batch of state changes gives rise to, beyond those of
//! the transitions: updates for the monitoring and pathfinding services,
//! and the expiry of service addresses at each block.
use vstd::prelude::*;

use crate::types::event::Event;
use crate::types::state::{BalanceProofState, CanonicalIdentifier, PFSUpdate};
use crate::types::state_change::StateChange;

verus! {

/// The balance proof that the monitoring service is told of after
/// `state_change`, if any.
pub open spec fn spec_ms_update(state_change: StateChange) -> Option<BalanceProofState> {
    match state_change {
        StateChange::ActionInitMediator(inner) => Some(inner.balance_proof),
        StateChange::ActionInitTarget(inner) => Some(inner.balance_proof),
        StateChange::ActionTransferReroute(inner) => Some(inner.transfer.balance_proof),
        StateChange::ReceiveTransferCancelRoute(inner) => Some(inner.transfer.balance_proof),
        StateChange::ReceiveLockExpired(inner) => Some(inner.balance_proof),
        StateChange::ReceiveTransferRefund(inner) => Some(inner.balance_proof),
        _ => None,
    }
}

/// The channel whose fees the pathfinding service is told of after
/// `state_change`, if any.
pub open spec fn spec_fee_update_of_change(state_change: StateChange) -> Option<CanonicalIdentifier> {
    match state_change {
        StateChange::ContractReceiveChannelDeposit(inner) => Some(inner.canonical_identifier),
        StateChange::ReceiveWithdrawRequest(inner) => Some(inner.canonical_identifier),
        StateChange::ReceiveWithdrawExpired(inner) => Some(inner.canonical_identifier),
        _ => None,
    }
}

/// The channel whose capacity the pathfinding service is told of after
/// `state_change`, if any.
pub open spec fn spec_capacity_update_of_change(state_change: StateChange) -> Option<
    CanonicalIdentifier,
> {
    match state_change {
        StateChange::ReceiveUnlock(inner) => Some(inner.balance_proof.canonical_identifier),
        StateChange::ReceiveLockExpired(inner) => Some(inner.balance_proof.canonical_identifier),
        StateChange::ReceiveTransferCancelRoute(inner) => Some(
            inner.transfer.balance_proof.canonical_identifier,
        ),
        StateChange::ReceiveTransferRefund(inner) => Some(inner.balance_proof.canonical_identifier),
        _ => None,
    }
}

/// The channel whose fees the pathfinding service is told of after `event`.
pub open spec fn spec_fee_update_of_event(event: Event) -> Option<CanonicalIdentifier> {
    match event {
        Event::SendWithdrawRequest(inner) => Some(inner.inner.canonical_identifier),
        Event::SendWithdrawExpired(inner) => Some(inner.inner.canonical_identifier),
        _ => None,
    }
}

/// The channel whose capacity the pathfinding service is told of after
/// `event`.
pub open spec fn spec_capacity_update_of_event(event: Event) -> Option<CanonicalIdentifier> {
    match event {
        Event::SendUnlock(inner) => Some(inner.inner.canonical_identifier),
        Event::SendLockedTransfer(inner) => Some(inner.inner.canonical_identifier),
        _ => None,
    }
}

/// The values of the `Some` entries of `s`, in order.
pub open spec fn spec_somes<T>(s: Seq<Option<T>>) -> Seq<T>
    decreases s.len(),
{
    if s.len() == 0 {
        Seq::empty()
    } else {
        match s.last() {
            Some(x) => spec_somes(s.drop_last()).push(x),
            None => spec_somes(s.drop_last()),
        }
    }
}

/// The events that the state changes add, state change after state change:
/// the monitoring update, then the expiry of service addresses at a block.
pub open spec fn spec_change_events(state_changes: Seq<StateChange>) -> Seq<Event>
    decreases state_changes.len(),
{
    if state_changes.len() == 0 {
        Seq::empty()
    } else {
        let sc = state_changes.last();
        let ms = match spec_ms_update(sc) {
            Some(bp) => seq![Event::SendMSUpdate(bp)],
            None => Seq::empty(),
        };
        let expire = match sc {
            StateChange::Block(inner) => seq![Event::ExpireServicesAddresses(inner.block_number)],
            _ => Seq::empty(),
        };
        spec_change_events(state_changes.drop_last()) + ms + expire
    }
}

/// The pathfinding updates for the channels of `s`, each with the flag.
pub open spec fn spec_pfs_events(s: Seq<CanonicalIdentifier>, update_fee_schedule: bool) -> Seq<Event> {
    Seq::new(
        s.len(),
        |i: int|
            Event::SendPFSUpdate(
                PFSUpdate { canonical_identifier: s[i], update_fee_schedule },
            ),
    )
}

/// All the events to handle after the state changes, whose transitions gave
/// `events`: those events, the events that the state changes add, then the
/// capacity updates and the fee updates for the pathfinding service, first
/// those of the state changes and then those of the events, each in order.
pub open spec fn spec_state_change_effects(state_changes: Seq<StateChange>, events: Seq<Event>) -> Seq<
    Event,
> {
    let capacity = spec_somes(state_changes.map_values(|sc: StateChange| spec_capacity_update_of_change(sc)))
        + spec_somes(events.map_values(|e: Event| spec_capacity_update_of_event(e)));
    let fees = spec_somes(state_changes.map_values(|sc: StateChange| spec_fee_update_of_change(sc)))
        + spec_somes(events.map_values(|e: Event| spec_fee_update_of_event(e)));
    events + spec_change_events(state_changes) + spec_pfs_events(capacity, false) + spec_pfs_events(
        fees,
        true,
    )
}

proof fn lemma_somes_push<T>(s: Seq<Option<T>>, x: Option<T>)
    ensures
        spec_somes(s.push(x)) == match x {
            Some(v) => spec_somes(s).push(v),
            None => spec_somes(s),
        },
{
    assert(s.push(x).drop_last() =~= s);
}

fn ms_update(state_change: &StateChange) -> (r: Option<BalanceProofState>)
    ensures
        r == spec_ms_update(*state_change),
{
    match state_change {
        StateChange::ActionInitMediator(inner) => Some(inner.balance_proof),
        StateChange::ActionInitTarget(inner) => Some(inner.balance_proof),
        StateChange::ActionTransferReroute(inner) => Some(inner.transfer.balance_proof),
        StateChange::ReceiveTransferCancelRoute(inner) => Some(inner.transfer.balance_proof),
        StateChange::ReceiveLockExpired(inner) => Some(inner.balance_proof),
        StateChange::ReceiveTransferRefund(inner) => Some(inner.balance_proof),
        _ => None,
    }
}

fn fee_update_of_change(state_change: &StateChange) -> (r: Option<CanonicalIdentifier>)
    ensures
        r == spec_fee_update_of_change(*state_change),
{
    match state_change {
        StateChange::ContractReceiveChannelDeposit(inner) => Some(inner.canonical_identifier),
        StateChange::ReceiveWithdrawRequest(inner) => Some(inner.canonical_identifier),
        StateChange::ReceiveWithdrawExpired(inner) => Some(inner.canonical_identifier),
        _ => None,
    }
}

fn capacity_update_of_change(state_change: &StateChange) -> (r: Option<CanonicalIdentifier>)
    ensures
        r == spec_capacity_update_of_change(*state_change),
{
    match state_change {
        StateChange::ReceiveUnlock(inner) => Some(inner.balance_proof.canonical_identifier),
        StateChange::ReceiveLockExpired(inner) => Some(inner.balance_proof.canonical_identifier),
        StateChange::ReceiveTransferCancelRoute(inner) => Some(
            inner.transfer.balance_proof.canonical_identifier,
        ),
        StateChange::ReceiveTransferRefund(inner) => Some(inner.balance_proof.canonical_identifier),
        _ => None,
    }
}

fn fee_update_of_event(event: &Event) -> (r: Option<CanonicalIdentifier>)
    ensures
        r == spec_fee_update_of_event(*event),
{
    match event {
        Event::SendWithdrawRequest(inner) => Some(inner.inner.canonical_identifier),
        Event::SendWithdrawExpired(inner) => Some(inner.inner.canonical_identifier),
        _ => None,
    }
}

fn capacity_update_of_event(event: &Event) -> (r: Option<CanonicalIdentifier>)
    ensures
        r == spec_capacity_update_of_event(*event),
{
    match event {
        Event::SendUnlock(inner) => Some(inner.inner.canonical_identifier),
        Event::SendLockedTransfer(inner) => Some(inner.inner.canonical_identifier),
        _ => None,
    }
}

/// The events to handle after a batch of state changes whose transitions
/// gave `events`: the monitoring service hears of the balance proofs that
/// the state changes carry, service addresses expire at each block, and
/// the pathfinding service hears of the channels whose capacity or fees
/// changed.
pub fn trigger_state_change_effects(state_changes: Vec<StateChange>, events: Vec<Event>) -> (r: Vec<
    Event,
>)
    ensures
        r@ == spec_state_change_effects(state_changes@, events@),
{
    let ghost scs = state_changes@;
    let ghost evs = events@;
    let mut events = events;
    let mut pfs_fee_updates: Vec<CanonicalIdentifier> = Vec::new();
    let mut pfs_capacity_updates: Vec<CanonicalIdentifier> = Vec::new();
    let mut i: usize = 0;
    while i < state_changes.len()
        invariant
            i <= scs.len(),
            scs == state_changes@,
            events@ == evs + spec_change_events(scs.subrange(0, i as int)),
            pfs_fee_updates@ == spec_somes(
                scs.subrange(0, i as int).map_values(|sc: StateChange| spec_fee_update_of_change(sc)),
            ),
            pfs_capacity_updates@ == spec_somes(
                scs.subrange(0, i as int).map_values(
                    |sc: StateChange| spec_capacity_update_of_change(sc),
                ),
            ),
        decreases scs.len() - i,
    {
        let state_change = &state_changes[i];
        let ghost before = events@;
        proof {
            let p = scs.subrange(0, i + 1);
            assert(p.drop_last() =~= scs.subrange(0, i as int));
            assert(p.last() == scs[i as int]);
            assert(p.map_values(|sc: StateChange| spec_fee_update_of_change(sc)) =~= scs.subrange(
                0,
                i as int,
            ).map_values(|sc: StateChange| spec_fee_update_of_change(sc)).push(
                spec_fee_update_of_change(scs[i as int]),
            ));
            assert(p.map_values(|sc: StateChange| spec_capacity_update_of_change(sc))
                =~= scs.subrange(0, i as int).map_values(
                |sc: StateChange| spec_capacity_update_of_change(sc),
            ).push(spec_capacity_update_of_change(scs[i as int])));
            lemma_somes_push(
                scs.subrange(0, i as int).map_values(|sc: StateChange| spec_fee_update_of_change(sc)),
                spec_fee_update_of_change(scs[i as int]),
            );
            lemma_somes_push(
                scs.subrange(0, i as int).map_values(
                    |sc: StateChange| spec_capacity_update_of_change(sc),
                ),
                spec_capacity_update_of_change(scs[i as int]),
            );
        }
        if let Some(balance_proof) = ms_update(state_change) {
            events.push(Event::SendMSUpdate(balance_proof));
        }
        if let Some(canonical_identifier) = fee_update_of_change(state_change) {
            pfs_fee_updates.push(canonical_identifier);
        }
        if let Some(canonical_identifier) = capacity_update_of_change(state_change) {
            pfs_capacity_updates.push(canonical_identifier);
        }
        if let StateChange::Block(inner) = state_change {
            events.push(Event::ExpireServicesAddresses(inner.block_number));
        }
        proof {
            let sc = scs[i as int];
            let ms = match spec_ms_update(sc) {
                Some(bp) => seq![Event::SendMSUpdate(bp)],
                None => Seq::empty(),
            };
            let expire = match sc {
                StateChange::Block(inner) => seq![Event::ExpireServicesAddresses(inner.block_number)],
                _ => Seq::empty(),
            };
            assert(events@ =~= before + ms + expire);
            assert(evs + spec_change_events(scs.subrange(0, i + 1)) =~= before + ms + expire);
        }
        i = i + 1;
    }
    assert(scs.subrange(0, scs.len() as int) =~= scs);
    let ghost all = events@;
    let ghost fee0 = pfs_fee_updates@;
    let ghost cap0 = pfs_capacity_updates@;
    let mut j: usize = 0;
    while j < events.len()
        invariant
            j <= all.len(),
            events@ == all,
            all == evs + spec_change_events(scs),
            pfs_fee_updates@ == fee0 + spec_somes(
                all.subrange(0, j as int).map_values(|e: Event| spec_fee_update_of_event(e)),
            ),
            pfs_capacity_updates@ == cap0 + spec_somes(
                all.subrange(0, j as int).map_values(|e: Event| spec_capacity_update_of_event(e)),
            ),
        decreases all.len() - j,
    {
        let event = &events[j];
        proof {
            let p = all.subrange(0, j + 1);
            assert(p.map_values(|e: Event| spec_fee_update_of_event(e)) =~= all.subrange(
                0,
                j as int,
            ).map_values(|e: Event| spec_fee_update_of_event(e)).push(
                spec_fee_update_of_event(all[j as int]),
            ));
            assert(p.map_values(|e: Event| spec_capacity_update_of_event(e)) =~= all.subrange(
                0,
                j as int,
            ).map_values(|e: Event| spec_capacity_update_of_event(e)).push(
                spec_capacity_update_of_event(all[j as int]),
            ));
            lemma_somes_push(
                all.subrange(0, j as int).map_values(|e: Event| spec_fee_update_of_event(e)),
                spec_fee_update_of_event(all[j as int]),
            );
            lemma_somes_push(
                all.subrange(0, j as int).map_values(|e: Event| spec_capacity_update_of_event(e)),
                spec_capacity_update_of_event(all[j as int]),
            );
        }
        if let Some(canonical_identifier) = fee_update_of_event(event) {
            pfs_fee_updates.push(canonical_identifier);
        }
        if let Some(canonical_identifier) = capacity_update_of_event(event) {
            pfs_capacity_updates.push(canonical_identifier);
        }
        proof {
            assert(fee0 + spec_somes(all.subrange(0, j + 1).map_values(|e: Event| spec_fee_update_of_event(e)))
                =~= pfs_fee_updates@);
            assert(cap0 + spec_somes(all.subrange(0, j + 1).map_values(|e: Event| spec_capacity_update_of_event(e)))
                =~= pfs_capacity_updates@);
        }
        j = j + 1;
    }
    proof {
        assert(all.subrange(0, all.len() as int) =~= all);
        lemma_events_add_no_updates(evs, scs);
    }
    let ghost mid = events@;
    let mut k: usize = 0;
    while k < pfs_capacity_updates.len()
        invariant
            k <= pfs_capacity_updates@.len(),
            events@ == mid + spec_pfs_events(pfs_capacity_updates@.subrange(0, k as int), false),
        decreases pfs_capacity_updates@.len() - k,
    {
        events.push(
            Event::SendPFSUpdate(
                PFSUpdate {
                    canonical_identifier: pfs_capacity_updates[k],
                    update_fee_schedule: false,
                },
            ),
        );
        proof {
            assert(mid + spec_pfs_events(pfs_capacity_updates@.subrange(0, k + 1), false) =~= events@);
        }
        k = k + 1;
    }
    assert(pfs_capacity_updates@.subrange(0, pfs_capacity_updates@.len() as int)
        =~= pfs_capacity_updates@);
    let ghost mid2 = events@;
    let mut m: usize = 0;
    while m < pfs_fee_updates.len()
        invariant
            m <= pfs_fee_updates@.len(),
            events@ == mid2 + spec_pfs_events(pfs_fee_updates@.subrange(0, m as int), true),
        decreases pfs_fee_updates@.len() - m,
    {
        events.push(
            Event::SendPFSUpdate(
                PFSUpdate { canonical_identifier: pfs_fee_updates[m], update_fee_schedule: true },
            ),
        );
        proof {
            assert(mid2 + spec_pfs_events(pfs_fee_updates@.subrange(0, m + 1), true) =~= events@);
        }
        m = m + 1;
    }
    assert(pfs_fee_updates@.subrange(0, pfs_fee_updates@.len() as int) =~= pfs_fee_updates@);
    events
}

/// The events that the state changes add ask for no pathfinding update, so
/// the updates of the events come from the transitions' events alone.
proof fn lemma_events_add_no_updates(events: Seq<Event>, state_changes: Seq<StateChange>)
    ensures
        spec_somes((events + spec_change_events(state_changes)).map_values(
            |e: Event| spec_fee_update_of_event(e),
        )) == spec_somes(events.map_values(|e: Event| spec_fee_update_of_event(e))),
        spec_somes((events + spec_change_events(state_changes)).map_values(
            |e: Event| spec_capacity_update_of_event(e),
        )) == spec_somes(events.map_values(|e: Event| spec_capacity_update_of_event(e))),
    decreases state_changes.len(),
{
    if state_changes.len() == 0 {
        assert(events + spec_change_events(state_changes) =~= events);
    } else {
        let rest = state_changes.drop_last();
        lemma_events_add_no_updates(events, rest);
        let sc = state_changes.last();
        let ms = match spec_ms_update(sc) {
            Some(bp) => seq![Event::SendMSUpdate(bp)],
            None => Seq::empty(),
        };
        let expire = match sc {
            StateChange::Block(inner) => seq![Event::ExpireServicesAddresses(inner.block_number)],
            _ => Seq::empty(),
        };
        let base = events + spec_change_events(rest);
        assert(events + spec_change_events(state_changes) =~= base + ms + expire);
        lemma_no_updates_appended(base, ms + expire);
    }
}

proof fn lemma_no_updates_appended(base: Seq<Event>, added: Seq<Event>)
    requires
        forall|i: int|
            0 <= i < added.len() ==> spec_fee_update_of_event(#[trigger] added[i]).is_none()
                && spec_capacity_update_of_event(added[i]).is_none(),
    ensures
        spec_somes((base + added).map_values(|e: Event| spec_fee_update_of_event(e))) == spec_somes(
            base.map_values(|e: Event| spec_fee_update_of_event(e)),
        ),
        spec_somes((base + added).map_values(|e: Event| spec_capacity_update_of_event(e)))
            == spec_somes(base.map_values(|e: Event| spec_capacity_update_of_event(e))),
    decreases added.len(),
{
    if added.len() == 0 {
        assert(base + added =~= base);
    } else {
        let init = added.drop_last();
        lemma_no_updates_appended(base, init);
        assert(base + added =~= (base + init).push(added.last()));
        assert((base + added).map_values(|e: Event| spec_fee_update_of_event(e)) =~= (base
            + init).map_values(|e: Event| spec_fee_update_of_event(e)).push(
            spec_fee_update_of_event(added.last()),
        ));
        assert((base + added).map_values(|e: Event| spec_capacity_update_of_event(e)) =~= (base
            + init).map_values(|e: Event| spec_capacity_update_of_event(e)).push(
            spec_capacity_update_of_event(added.last()),
        ));
        lemma_somes_push(
            (base + init).map_values(|e: Event| spec_fee_update_of_event(e)),
            spec_fee_update_of_event(added.last()),
        );
        lemma_somes_push(
            (base + init).map_values(|e: Event| spec_capacity_update_of_event(e)),
            spec_capacity_update_of_event(added.last()),
        );
    }
}

} // verus!
