//! The payments a node takes part in: state changes about a payment go to
//! its task.
use vstd::prelude::*;

use crate::chain::machine::{spec_unchanged, TransitionResult};
use crate::chain::queues::ChainTransition;
use crate::initiator_manager::{
    spec_manager_defined, spec_manager_transition, TransitionResult as ManagerResult,
};
use crate::map::{spec_inserted, spec_removed};
use crate::copies::{copy_payment, spec_payment_copy};
use crate::types::state::InitiatorPaymentState;
use crate::types::state::{ChainState, InitiatorTask, SecretHash, TransferRole, TransferTask};
use crate::initiator::spec_try_new_route_defined;
use crate::views::{get_token_network_by_address, spec_network_in_registries, spec_registries};
use crate::types::event::Event;
use crate::types::state_change::{
    Block, ActionInitInitiator, ActionTransferReroute, ContractReceiveSecretReveal, ReceiveLockExpired, ReceiveSecretRequest, ReceiveSecretReveal,
    ReceiveTransferCancelRoute, ReceiveTransferRefund, ReceiveUnlock, StateChange,
};

verus! {

/// The payment task of `secrethash`, if any, is one that this library can
/// pass the state change to: a payment we initiated, for a state change
/// that such a payment handles.
pub open spec fn spec_payment_task_defined(
    chain_state: &ChainState,
    state_change: &StateChange,
    secrethash: SecretHash,
) -> bool {
    let tasks = chain_state.payment_mapping.secrethashes_to_task@;
    tasks.contains_key(secrethash) ==> (tasks[secrethash] is Initiator && spec_manager_defined(
        chain_state,
        Some(tasks[secrethash]->Initiator_0.manager_state),
        *state_change,
    ))
}

/// The outcome of `subdispatch_to_payment_task`: without a task for the
/// secret hash nothing changes; a payment we initiated takes the state
/// change and stays in its place, or leaves once it has no transfer left.
pub open spec fn spec_payment_task_outcome(
    chain_state: ChainState,
    state_change: StateChange,
    secrethash: SecretHash,
    r: TransitionResult,
) -> bool {
    let tasks = chain_state.payment_mapping.secrethashes_to_task;
    if !tasks@.contains_key(secrethash) {
        spec_unchanged(chain_state, r)
    } else {
        match tasks@[secrethash] {
            TransferTask::Initiator(task) => exists|taken: ChainState, m: ManagerResult|
                #[trigger] spec_manager_transition(taken, Some(task.manager_state), state_change, m)
                    && taken == (ChainState { payment_mapping: taken.payment_mapping, ..chain_state })
                    && spec_removed(taken.payment_mapping.secrethashes_to_task, tasks, secrethash)
                    && match m {
                    Err(e) => r == Err::<ChainTransition, crate::errors::StateTransitionError>(e),
                    Ok(mt) => {
                        let n = r.unwrap().new_state;
                        &&& r.is_ok()
                        &&& r.unwrap().events == mt.events
                        &&& n == (ChainState { payment_mapping: n.payment_mapping, ..mt.chain_state })
                        &&& match mt.new_state {
                            Some(ns) => spec_inserted(
                                n.payment_mapping.secrethashes_to_task,
                                tasks,
                                secrethash,
                                TransferTask::Initiator(InitiatorTask { manager_state: ns, ..task }),
                            ),
                            None => spec_removed(n.payment_mapping.secrethashes_to_task, tasks, secrethash),
                        }
                    },
                },
            _ => false,
        }
    }
}

/// Subdispatch state change to the payment task of `secrethash`.
pub fn subdispatch_to_payment_task(
    chain_state: ChainState,
    state_change: StateChange,
    secrethash: SecretHash,
) -> (r: TransitionResult)
    requires
        spec_payment_task_defined(&chain_state, &state_change, secrethash),
    ensures
        spec_payment_task_outcome(chain_state, state_change, secrethash, r),
{
    let ghost old = chain_state;
    let mut chain_state = chain_state;
    let i = match chain_state.payment_mapping.secrethashes_to_task.find(&secrethash) {
        Some(i) => i,
        None => {
            return Ok(ChainTransition { new_state: chain_state, events: Vec::new() });
        },
    };
    let (key, task) = chain_state.payment_mapping.secrethashes_to_task.take(i);
    let ghost taken = chain_state;
    match task {
        TransferTask::Initiator(initiator) => {
            let InitiatorTask { role, token_network_address, manager_state } = initiator;
            let ghost task_value = InitiatorTask { role, token_network_address, manager_state };
            proof {
                crate::initiator_manager::lemma_manager_defined_ignores_payments(
                    taken,
                    old,
                    Some(manager_state),
                    state_change,
                );
            }
            let sub_iteration = crate::initiator_manager::state_transition(
                chain_state,
                Some(manager_state),
                state_change,
            );
            let ghost m = sub_iteration;
            assert(spec_removed(
                taken.payment_mapping.secrethashes_to_task,
                old.payment_mapping.secrethashes_to_task,
                secrethash,
            ));
            proof {
                if m.is_ok() {
                    crate::initiator_manager::lemma_manager_keeps_payments(
                        taken,
                        Some(manager_state),
                        state_change,
                        m,
                    );
                }
            }
            let sub_iteration = match sub_iteration {
                Ok(sub_iteration) => sub_iteration,
                Err(e) => {
                    return Err(e);
                },
            };
            let mut chain_state = sub_iteration.chain_state;
            assert(chain_state.payment_mapping == taken.payment_mapping);
            match sub_iteration.new_state {
                Some(new_state) => {
                    let task = InitiatorTask { role, token_network_address, manager_state: new_state };
                    let ghost v = TransferTask::Initiator(task);
                    chain_state.payment_mapping.secrethashes_to_task.put_back(
                        i,
                        key,
                        TransferTask::Initiator(task),
                    );
                    proof {
                        let olds = old.payment_mapping.secrethashes_to_task;
                        assert(olds.entries().remove(i as int).insert(i as int, (key, v))
                            =~= olds.entries().update(i as int, (key, v)));
                        assert(olds@.remove(key).insert(key, v) =~= olds@.insert(key, v));
                    }
                },
                None => {},
            }
            Ok(ChainTransition { new_state: chain_state, events: sub_iteration.events })
        },
        _ => {
            proof {
                assert(false);
            }
            Err(crate::errors::StateTransitionError::from_message("Unknown payment task".to_string()))
        },
    }
}


/// Handle `ContractReceiveSecretReveal` state change.
pub fn handle_contract_receive_secret_reveal(chain_state: ChainState, state_change: ContractReceiveSecretReveal) -> (r: TransitionResult)
    requires
        spec_payment_task_defined(&chain_state, &StateChange::ContractReceiveSecretReveal(state_change), state_change.secrethash),
    ensures
        spec_payment_task_outcome(chain_state, StateChange::ContractReceiveSecretReveal(state_change), state_change.secrethash, r),
{
    let secrethash = state_change.secrethash;
    subdispatch_to_payment_task(chain_state, StateChange::ContractReceiveSecretReveal(state_change), secrethash)
}

/// Handle `ReceiveTransferCancelRoute` state change.
pub fn handle_receive_transfer_cancel_route(chain_state: ChainState, state_change: ReceiveTransferCancelRoute) -> (r: TransitionResult)
    requires
        spec_payment_task_defined(&chain_state, &StateChange::ReceiveTransferCancelRoute(state_change), state_change.transfer.lock.secrethash),
    ensures
        spec_payment_task_outcome(chain_state, StateChange::ReceiveTransferCancelRoute(state_change), state_change.transfer.lock.secrethash, r),
{
    let secrethash = state_change.transfer.lock.secrethash;
    subdispatch_to_payment_task(chain_state, StateChange::ReceiveTransferCancelRoute(state_change), secrethash)
}

/// Handle `ReceiveSecretReveal` state change.
pub fn handle_receive_secret_reveal(chain_state: ChainState, state_change: ReceiveSecretReveal) -> (r: TransitionResult)
    requires
        spec_payment_task_defined(&chain_state, &StateChange::ReceiveSecretReveal(state_change), state_change.secrethash),
    ensures
        spec_payment_task_outcome(chain_state, StateChange::ReceiveSecretReveal(state_change), state_change.secrethash, r),
{
    let secrethash = state_change.secrethash;
    subdispatch_to_payment_task(chain_state, StateChange::ReceiveSecretReveal(state_change), secrethash)
}

/// Handle `ReceiveSecretRequest` state change.
pub fn handle_receive_secret_request(chain_state: ChainState, state_change: ReceiveSecretRequest) -> (r: TransitionResult)
    requires
        spec_payment_task_defined(&chain_state, &StateChange::ReceiveSecretRequest(state_change), state_change.secrethash),
    ensures
        spec_payment_task_outcome(chain_state, StateChange::ReceiveSecretRequest(state_change), state_change.secrethash, r),
{
    let secrethash = state_change.secrethash;
    subdispatch_to_payment_task(chain_state, StateChange::ReceiveSecretRequest(state_change), secrethash)
}

/// Handle `ReceiveLockExpired` state change.
pub fn handle_receive_lock_expired(chain_state: ChainState, state_change: ReceiveLockExpired) -> (r: TransitionResult)
    requires
        spec_payment_task_defined(&chain_state, &StateChange::ReceiveLockExpired(state_change), state_change.secrethash),
    ensures
        spec_payment_task_outcome(chain_state, StateChange::ReceiveLockExpired(state_change), state_change.secrethash, r),
{
    let secrethash = state_change.secrethash;
    subdispatch_to_payment_task(chain_state, StateChange::ReceiveLockExpired(state_change), secrethash)
}

/// Handle `ReceiveTransferRefund` state change.
pub fn handle_receive_transfer_refund(chain_state: ChainState, state_change: ReceiveTransferRefund) -> (r: TransitionResult)
    requires
        spec_payment_task_defined(&chain_state, &StateChange::ReceiveTransferRefund(state_change), state_change.transfer.lock.secrethash),
    ensures
        spec_payment_task_outcome(chain_state, StateChange::ReceiveTransferRefund(state_change), state_change.transfer.lock.secrethash, r),
{
    let secrethash = state_change.transfer.lock.secrethash;
    subdispatch_to_payment_task(chain_state, StateChange::ReceiveTransferRefund(state_change), secrethash)
}

/// Handle `ReceiveUnlock` state change.
pub fn handle_receive_unlock(chain_state: ChainState, state_change: ReceiveUnlock) -> (r: TransitionResult)
    requires
        spec_payment_task_defined(&chain_state, &StateChange::ReceiveUnlock(state_change), state_change.secrethash),
    ensures
        spec_payment_task_outcome(chain_state, StateChange::ReceiveUnlock(state_change), state_change.secrethash, r),
{
    let secrethash = state_change.secrethash;
    subdispatch_to_payment_task(chain_state, StateChange::ReceiveUnlock(state_change), secrethash)
}

/// What starting a payment needs: where the node knows the token network
/// and takes part in no payment of the secret hash, the routes can be
/// tried.
pub open spec fn spec_init_initiator_defined(
    chain_state: &ChainState,
    state_change: &ActionInitInitiator,
) -> bool {
    let known = spec_network_in_registries(
        spec_registries(chain_state),
        state_change.transfer.token_network_address,
    ).is_some();
    let fresh = !chain_state.payment_mapping.secrethashes_to_task@.contains_key(
        state_change.transfer.secrethash,
    );
    (known && fresh) ==> spec_try_new_route_defined(
        chain_state,
        state_change.routes@,
        &state_change.transfer,
    )
}

/// The outcome of starting a payment: for a known token network and a new
/// secret hash, the payment starts, and the node keeps its task where a
/// transfer went out; otherwise nothing happens.
pub open spec fn spec_initiator_task_started(
    chain_state: ChainState,
    state_change: ActionInitInitiator,
    r: TransitionResult,
) -> bool {
    let tasks = chain_state.payment_mapping.secrethashes_to_task;
    let secrethash = state_change.transfer.secrethash;
    match spec_network_in_registries(
        spec_registries(&chain_state),
        state_change.transfer.token_network_address,
    ) {
        None => spec_unchanged(chain_state, r),
        Some(tn) => if tasks@.contains_key(secrethash) {
            spec_unchanged(chain_state, r)
        } else {
            exists|m: ManagerResult|
                #[trigger] spec_manager_transition(
                    chain_state,
                    None,
                    StateChange::ActionInitInitiator(state_change),
                    m,
                ) && match m {
                    Err(e) => r == Err::<ChainTransition, crate::errors::StateTransitionError>(e),
                    Ok(mt) => {
                        let n = r.unwrap().new_state;
                        &&& r.is_ok()
                        &&& r.unwrap().events == mt.events
                        &&& n == (ChainState { payment_mapping: n.payment_mapping, ..mt.chain_state })
                        &&& match mt.new_state {
                            Some(ms) => spec_inserted(
                                n.payment_mapping.secrethashes_to_task,
                                tasks,
                                secrethash,
                                TransferTask::Initiator(
                                    InitiatorTask {
                                        role: TransferRole::Initiator,
                                        token_network_address: tn.address,
                                        manager_state: ms,
                                    },
                                ),
                            ),
                            None => spec_removed(n.payment_mapping.secrethashes_to_task, tasks, secrethash),
                        }
                    },
                }
        },
    }
}

/// Starts a payment we initiate: a new task for its secret hash, where the
/// token network is known and no task has that secret hash yet.
pub fn handle_action_init_initiator(chain_state: ChainState, state_change: ActionInitInitiator) -> (r:
    TransitionResult)
    requires
        spec_init_initiator_defined(&chain_state, &state_change),
    ensures
        spec_initiator_task_started(chain_state, state_change, r),
{
    let ghost old = chain_state;
    let ghost sc = state_change;
    let token_network_address = match get_token_network_by_address(
        &chain_state,
        state_change.transfer.token_network_address,
    ) {
        Some(tn) => tn.address,
        None => {
            return Ok(ChainTransition { new_state: chain_state, events: Vec::new() });
        },
    };
    let secrethash = state_change.transfer.secrethash;
    if chain_state.payment_mapping.secrethashes_to_task.contains_key(&secrethash) {
        return Ok(ChainTransition { new_state: chain_state, events: Vec::new() });
    }
    let sub_iteration = crate::initiator_manager::state_transition(
        chain_state,
        None,
        StateChange::ActionInitInitiator(state_change),
    );
    let ghost m = sub_iteration;
    proof {
        if m.is_ok() {
            crate::initiator_manager::lemma_manager_keeps_payments(
                old,
                None,
                StateChange::ActionInitInitiator(sc),
                m,
            );
        }
    }
    let sub_iteration = match sub_iteration {
        Ok(sub_iteration) => sub_iteration,
        Err(e) => {
            return Err(e);
        },
    };
    let mut chain_state = sub_iteration.chain_state;
    match sub_iteration.new_state {
        Some(manager_state) => {
            chain_state.payment_mapping.secrethashes_to_task.insert(
                secrethash,
                TransferTask::Initiator(
                    InitiatorTask {
                        role: TransferRole::Initiator,
                        token_network_address,
                        manager_state,
                    },
                ),
            );
        },
        None => {
            chain_state.payment_mapping.secrethashes_to_task.remove(&secrethash);
        },
    }
    let r = Ok(ChainTransition { new_state: chain_state, events: sub_iteration.events });
    assert(spec_manager_transition(old, None, StateChange::ActionInitInitiator(sc), m));
    r
}


/// A block passed to the payment task of `secrethash` leaves the node as it
/// was but for its random number generator and that task.
pub proof fn lemma_payment_block_outcome(
    chain_state: ChainState,
    state_change: Block,
    secrethash: SecretHash,
    r: TransitionResult,
)
    requires
        spec_payment_task_outcome(chain_state, StateChange::Block(state_change), secrethash, r),
        r.is_ok(),
    ensures
        r.unwrap().new_state == (ChainState {
            pseudo_random_number_generator: r.unwrap().new_state.pseudo_random_number_generator,
            payment_mapping: r.unwrap().new_state.payment_mapping,
            ..chain_state
        }),
        forall|k: SecretHash|
            k != secrethash ==> (#[trigger] r.unwrap().new_state.payment_mapping.secrethashes_to_task@.contains_key(k)
                == chain_state.payment_mapping.secrethashes_to_task@.contains_key(k))
                && r.unwrap().new_state.payment_mapping.secrethashes_to_task@[k]
                == chain_state.payment_mapping.secrethashes_to_task@[k],
{
    let sc = StateChange::Block(state_change);
    let tasks = chain_state.payment_mapping.secrethashes_to_task;
    if tasks@.contains_key(secrethash) {
        if let TransferTask::Initiator(task) = tasks@[secrethash] {
            let (taken, m) = choose|taken: ChainState, m: ManagerResult|
                #[trigger] spec_manager_transition(taken, Some(task.manager_state), sc, m)
                    && taken == (ChainState { payment_mapping: taken.payment_mapping, ..chain_state })
                    && spec_removed(taken.payment_mapping.secrethashes_to_task, tasks, secrethash)
                    && match m {
                    Err(e) => r == Err::<ChainTransition, crate::errors::StateTransitionError>(e),
                    Ok(mt) => {
                        let n = r.unwrap().new_state;
                        &&& r.is_ok()
                        &&& r.unwrap().events == mt.events
                        &&& n == (ChainState { payment_mapping: n.payment_mapping, ..mt.chain_state })
                        &&& match mt.new_state {
                            Some(ns) => spec_inserted(
                                n.payment_mapping.secrethashes_to_task,
                                tasks,
                                secrethash,
                                TransferTask::Initiator(InitiatorTask { manager_state: ns, ..task }),
                            ),
                            None => spec_removed(n.payment_mapping.secrethashes_to_task, tasks, secrethash),
                        }
                    },
                };
            crate::initiator_manager::lemma_manager_block_keeps_chain(
                taken,
                Some(task.manager_state),
                state_change,
                m,
            );
        }
    }
}

/// After the tasks of the first `i` of `keys` took `state_change` in turn,
/// the node is `chain_state` and the events so far are `events`.
pub open spec fn spec_tasks_stepped(
    chain0: ChainState,
    keys: Seq<SecretHash>,
    state_change: StateChange,
    i: int,
    chain_state: ChainState,
    events: Seq<Event>,
) -> bool
    decreases i,
{
    if i <= 0 {
        &&& chain_state == chain0
        &&& events == Seq::<Event>::empty()
    } else {
        exists|c: ChainState, t: TransitionResult|
            #[trigger] spec_payment_task_outcome(c, state_change, keys[i - 1], t) && t is Ok
                && t->Ok_0.new_state == chain_state && t->Ok_0.events@.len() <= events.len()
                && events.subrange(events.len() - t->Ok_0.events@.len(), events.len() as int)
                == t->Ok_0.events@ && spec_tasks_stepped(
                chain0,
                keys,
                state_change,
                i - 1,
                c,
                events.subrange(0, events.len() - t->Ok_0.events@.len()),
            )
    }
}

/// The secret hashes of the node's payment tasks, in order.
pub open spec fn spec_task_keys(chain_state: &ChainState) -> Seq<SecretHash> {
    let e = chain_state.payment_mapping.secrethashes_to_task.entries();
    Seq::new(e.len(), |i: int| e[i].0)
}

/// The outcome of passing a block to every payment task in turn: the first
/// failure, or the node after the last task with the events of all in
/// order.
pub open spec fn spec_all_payment_tasks(chain_state: ChainState, state_change: Block, r: TransitionResult) -> bool {
    let keys = spec_task_keys(&chain_state);
    let sc = StateChange::Block(state_change);
    match r {
        Ok(ct) => spec_tasks_stepped(chain_state, keys, sc, keys.len() as int, ct.new_state, ct.events@),
        Err(e) => exists|i: int, c: ChainState, ev: Seq<Event>|
            0 <= i < keys.len() && #[trigger] spec_tasks_stepped(chain_state, keys, sc, i, c, ev)
                && spec_payment_task_outcome(
                c,
                sc,
                keys[i],
                Err::<ChainTransition, crate::errors::StateTransitionError>(e),
            ),
    }
}

/// What passing a block to every payment task needs: each is a payment we
/// initiated that can take the block.
pub open spec fn spec_all_payment_tasks_defined(chain_state: &ChainState, state_change: Block) -> bool {
    let tasks = chain_state.payment_mapping.secrethashes_to_task@;
    forall|k: SecretHash|
        #[trigger] tasks.contains_key(k) ==> tasks[k] is Initiator && spec_manager_defined(
            chain_state,
            Some(tasks[k]->Initiator_0.manager_state),
            StateChange::Block(state_change),
        )
}

proof fn lemma_tasks_stepped_next(
    chain0: ChainState,
    keys: Seq<SecretHash>,
    sc: StateChange,
    k: int,
    c: ChainState,
    ev: Seq<Event>,
    t: TransitionResult,
    events: Seq<Event>,
)
    requires
        k >= 0,
        spec_tasks_stepped(chain0, keys, sc, k, c, ev),
        spec_payment_task_outcome(c, sc, keys[k], t),
        t is Ok,
        events == ev + t->Ok_0.events@,
    ensures
        spec_tasks_stepped(chain0, keys, sc, k + 1, t->Ok_0.new_state, events),
{
    let i = k + 1;
    assert(keys[i - 1] == keys[k]);
    assert(events.subrange(0, events.len() - t->Ok_0.events@.len()) =~= ev);
    assert(events.subrange(events.len() - t->Ok_0.events@.len(), events.len() as int) =~= t->Ok_0.events@);
}

/// Passes a block to every payment task of the node in turn.
pub fn subdispatch_to_all_lockedtransfers(chain_state: ChainState, state_change: Block) -> (r: TransitionResult)
    requires
        spec_all_payment_tasks_defined(&chain_state, state_change),
    ensures
        spec_all_payment_tasks(chain_state, state_change, r),
{
    let ghost chain0 = chain_state;
    let ghost sc = StateChange::Block(state_change);
    let ghost keys = spec_task_keys(&chain_state);
    proof {
        use_type_invariant(&chain_state.payment_mapping.secrethashes_to_task);
    }
    let mut snapshot: Vec<SecretHash> = Vec::new();
    let n = chain_state.payment_mapping.secrethashes_to_task.len();
    let mut j: usize = 0;
    while j < n
        invariant
            j <= n,
            n == keys.len(),
            keys == spec_task_keys(&chain_state),
            snapshot@ == keys.take(j as int),
        decreases n - j,
    {
        let (k, _) = chain_state.payment_mapping.secrethashes_to_task.entry_at(j);
        snapshot.push(*k);
        j = j + 1;
        assert(snapshot@ =~= keys.take(j as int));
    }
    assert(snapshot@ =~= keys);
    let mut chain_state = chain_state;
    let mut events: Vec<Event> = Vec::new();
    let mut i: usize = 0;
    while i < n
        invariant
            i <= n,
            n == keys.len(),
            snapshot@ == keys,
            keys == spec_task_keys(&chain0),
            sc == StateChange::Block(state_change),
            crate::map::keys_distinct(chain0.payment_mapping.secrethashes_to_task.entries()),
            spec_all_payment_tasks_defined(&chain0, state_change),
            chain_state == (ChainState {
                pseudo_random_number_generator: chain_state.pseudo_random_number_generator,
                payment_mapping: chain_state.payment_mapping,
                ..chain0
            }),
            forall|m: int|
                i <= m < n ==> chain_state.payment_mapping.secrethashes_to_task@.contains_key(#[trigger] keys[m])
                    && chain_state.payment_mapping.secrethashes_to_task@[keys[m]]
                    == chain0.payment_mapping.secrethashes_to_task@[keys[m]],
            spec_tasks_stepped(chain0, keys, sc, i as int, chain_state, events@),
        decreases n - i,
    {
        let ghost c = chain_state;
        let ghost ev = events@;
        let key = snapshot[i];
        proof {
            let tasks0 = chain0.payment_mapping.secrethashes_to_task;
            assert(tasks0@.contains_key(key)) by {
                assert(tasks0.entries()[i as int].0 == key);
                assert(crate::map::has_key(tasks0.entries(), key));
            }
            let task = tasks0@[key];
            assert(c.payment_mapping.secrethashes_to_task@[key] == task);
            crate::initiator_manager::lemma_block_defined_ignores(
                c,
                chain0,
                Some(task->Initiator_0.manager_state),
                state_change,
            );
        }
        let t = subdispatch_to_payment_task(chain_state, StateChange::Block(state_change), key);
        let ghost tg = t;
        let transition = match t {
            Ok(tt) => tt,
            Err(e) => {
                return Err(e);
            },
        };
        proof {
            lemma_payment_block_outcome(c, state_change, key, tg);
            assert forall|m: int| i + 1 <= m < n implies #[trigger] keys[m] != key by {
                assert(chain0.payment_mapping.secrethashes_to_task.entries()[m].0 == keys[m]);
            }
        }
        chain_state = transition.new_state;
        let mut more = transition.events;
        events.append(&mut more);
        proof {
            lemma_tasks_stepped_next(chain0, keys, sc, i as int, c, ev, tg, events@);
        }
        i = i + 1;
    }
    Ok(ChainTransition { new_state: chain_state, events })
}


/// What a reroute needs: the payment task it reroutes, if any, is one we
/// initiated, and any copy of it can take the reroute; without one, the
/// task of the new secret hash, if any, can.
pub open spec fn spec_chain_reroute_defined(chain_state: &ChainState, state_change: ActionTransferReroute) -> bool {
    let tasks = chain_state.payment_mapping.secrethashes_to_task@;
    let sc = StateChange::ActionTransferReroute(state_change);
    let old_key = state_change.transfer.lock.secrethash;
    if tasks.contains_key(old_key) {
        &&& tasks[old_key] is Initiator
        &&& forall|q: InitiatorPaymentState|
            #[trigger] spec_payment_copy(q, tasks[old_key]->Initiator_0.manager_state) ==> spec_manager_defined(
                chain_state,
                Some(q),
                sc,
            )
    } else {
        spec_payment_task_defined(chain_state, &sc, state_change.secrethash)
    }
}

/// The outcome of a reroute: a copy of the rerouted payment task is filed
/// under the new secret hash as well, and the task of the new secret hash
/// takes the reroute.
pub open spec fn spec_chain_reroute(chain_state: ChainState, state_change: ActionTransferReroute, r: TransitionResult) -> bool {
    let tasks = chain_state.payment_mapping.secrethashes_to_task;
    let sc = StateChange::ActionTransferReroute(state_change);
    let old_key = state_change.transfer.lock.secrethash;
    let new_key = state_change.secrethash;
    if tasks@.contains_key(old_key) && tasks@[old_key] is Initiator {
        let task = tasks@[old_key]->Initiator_0;
        exists|q: InitiatorPaymentState, mid: ChainState|
            #[trigger] spec_payment_task_outcome(mid, sc, new_key, r) && #[trigger] spec_payment_copy(q, task.manager_state)
                && mid == (ChainState { payment_mapping: mid.payment_mapping, ..chain_state }) && spec_inserted(
                mid.payment_mapping.secrethashes_to_task,
                tasks,
                new_key,
                TransferTask::Initiator(InitiatorTask { manager_state: q, ..task }),
            )
    } else {
        spec_payment_task_outcome(chain_state, sc, new_key, r)
    }
}

/// Handle `ActionTransferReroute` state change.
pub fn handle_action_transfer_reroute(chain_state: ChainState, state_change: ActionTransferReroute) -> (r: TransitionResult)
    requires
        spec_chain_reroute_defined(&chain_state, state_change),
    ensures
        spec_chain_reroute(chain_state, state_change, r),
{
    let ghost cs = chain_state;
    let ghost sc = StateChange::ActionTransferReroute(state_change);
    let new_key = state_change.secrethash;
    let mut chain_state = chain_state;
    let copied = match chain_state.payment_mapping.secrethashes_to_task.get(&state_change.transfer.lock.secrethash) {
        Some(TransferTask::Initiator(task)) => Some(
            InitiatorTask {
                role: task.role,
                token_network_address: task.token_network_address,
                manager_state: copy_payment(&task.manager_state),
            },
        ),
        Some(_) => {
            assert(false);
            None
        },
        None => None,
    };
    match copied {
        Some(task) => {
            let ghost q = task.manager_state;
            chain_state.payment_mapping.secrethashes_to_task.insert(new_key, TransferTask::Initiator(task));
            proof {
                crate::initiator_manager::lemma_manager_defined_ignores_payments(chain_state, cs, Some(q), sc);
            }
        },
        None => {},
    }
    let ghost mid = chain_state;
    let r = subdispatch_to_payment_task(chain_state, StateChange::ActionTransferReroute(state_change), new_key);
    assert(spec_payment_task_outcome(mid, sc, new_key, r));
    r
}

} // verus!
