//! What holds of the ledger and the settlement engine whatever the order of
//! events: credit is exact, settlement is serialised per validator, and a
//! balance changes by exactly what was transferred.

use vstd::prelude::*;
use crate::ingest::TickReport;
use vstd::seq_lib::{to_multiset_contains, to_multiset_remove};
use crate::preservation::{lemma_ticks_by_push, lemma_total_pending_update};
use crate::rail::{LookupView, RailErrorView, TransferCallView};
use crate::reconcile::{reconciliation, ReconciliationView};
use crate::records::{Tick, REWARD_PER_TICK};
use crate::settlement::{idempotency_key, SettleErrorView, SettleOutcomeView, SettleStepView};
use crate::state::{
    at_or_after, in_time_order, settled_total, status_at_end, ticks_by, total_pending, LedgerOp,
    LedgerState,
};
use crate::text::{decimal, lemma_decimal_injective};

verus! {

/// The empty ledger satisfies the invariant.
pub proof fn lemma_empty_wf()
    ensures
        LedgerState::empty().wf(),
{
}

/// Every operation of the ledger store keeps the invariant.
pub proof fn lemma_apply_wf(s: LedgerState, op: LedgerOp)
    requires
        s.wf(),
    ensures
        s.apply(op).wf(),
{
    match op {
        LedgerOp::AddWebsite { id, url, user_id, disabled } => {
            s.lemma_add_website_wf(id, url, user_id, disabled);
        },
        LedgerOp::DisableWebsite { id, user_id } => {
            s.lemma_disable_website_wf(id, user_id);
        },
        LedgerOp::RegisterValidator { id, address } => {
            s.lemma_register_validator_wf(id, address);
        },
        LedgerOp::RecordTick { website_id, validator_id, status, latency, timestamp } => {
            s.lemma_record_tick_wf(website_id, validator_id, status, latency, timestamp);
        },
        LedgerOp::LockValidator { id } => {
            s.lemma_lock_validator_wf(id);
        },
        LedgerOp::ReleaseValidator { id } => {
            s.lemma_lock_validator_wf(id);
        },
        LedgerOp::WriteIntent { validator_id, amount, created_at } => {
            s.lemma_write_intent_wf(validator_id, amount, created_at);
        },
        LedgerOp::MarkSubmitted { intent_id } => {
            s.lemma_mark_submitted_wf(intent_id);
        },
        LedgerOp::MarkConfirmed { intent_id, transfer_id } => {
            s.lemma_mark_confirmed_wf(intent_id, transfer_id);
        },
        LedgerOp::MarkFailed { intent_id, reason } => {
            s.lemma_mark_failed_wf(intent_id, reason);
        },
    }
}

/// Whatever operations are applied to an empty ledger, in whatever order and
/// whether they succeed or are refused, the ledger satisfies the invariant.
pub proof fn lemma_every_reachable_state_wf(ops: Seq<LedgerOp>)
    ensures
        LedgerState::empty().run(ops).wf(),
    decreases ops.len(),
{
    if ops.len() > 0 {
        lemma_every_reachable_state_wf(ops.drop_last());
        lemma_apply_wf(LedgerState::empty().run(ops.drop_last()), ops.last());
    }
}

/// Serialised settlement, at all times. Whatever operations were applied to
/// an empty ledger, no validator has two intents in flight.
pub proof fn lemma_never_two_in_flight(ops: Seq<LedgerOp>, i: int, j: int)
    requires
        ({
            let s = LedgerState::empty().run(ops);
            &&& 0 <= i < s.intents.len()
            &&& 0 <= j < s.intents.len()
            &&& s.intents[i].state.in_flight()
            &&& s.intents[j].state.in_flight()
            &&& s.intents[i].validator_id == s.intents[j].validator_id
        }),
    ensures
        i == j,
{
    lemma_every_reachable_state_wf(ops);
    lemma_one_in_flight_per_validator(LedgerState::empty().run(ops), i, j);
}

/// Conservation. The reward for every tick that a validator reported is
/// either still pending or was paid out by a confirmed intent: nothing is
/// transferred without being taken off the balance, and nothing is taken
/// off without a confirmed transfer.
pub proof fn lemma_credit_is_pending_or_paid(s: LedgerState, validator_id: u128)
    requires
        s.wf(),
        s.has_validator(validator_id),
    ensures
        s.pending(validator_id) + settled_total(s.intents, validator_id) == REWARD_PER_TICK
            * ticks_by(s.ticks, validator_id),
{
    s.lemma_validator_found(validator_id);
    let v = s.validator_at(validator_id);
    assert(s.validators[v].pending_amount + settled_total(s.intents, s.validators[v].id)
        == REWARD_PER_TICK * ticks_by(s.ticks, s.validators[v].id));
}

/// One report either is recorded, and then adds one tick and credits its
/// validator, and nobody else, with one reward; or it is refused and changes
/// nothing.
pub proof fn lemma_ingest_step(s: LedgerState, report: TickReport)
    requires
        s.wf(),
    ensures
        ({
            let step = s.ingest(report);
            &&& step.0.wf()
            &&& step.0.websites == s.websites
            &&& step.0.intents == s.intents
            &&& step.1 is Err ==> step.0 == s
            &&& step.1 is Ok ==> {
                &&& step.0.ticks.len() == s.ticks.len() + 1
                &&& total_pending(step.0.validators) == total_pending(s.validators)
                    + REWARD_PER_TICK
                &&& step.0.pending(report.validator_id) == s.pending(report.validator_id)
                    + REWARD_PER_TICK
                &&& forall|other: u128|
                    other != report.validator_id ==> #[trigger] step.0.pending(other) == s.pending(
                        other,
                    )
                &&& forall|id: u128|
                    ticks_by(step.0.ticks, id) == ticks_by(s.ticks, id) + if id
                        == report.validator_id {
                        1nat
                    } else {
                        0nat
                    }
            }
        }),
{
    let step = s.ingest(report);
    s.lemma_record_tick_wf(
        report.website_id,
        report.validator_id,
        report.status,
        report.latency_ms,
        report.observed_at,
    );
    if step.1 is Ok {
        let v = s.validator_at(report.validator_id);
        s.lemma_validator_found(report.validator_id);
        s.lemma_validator_at(v);
        s.lemma_validators_kept(step.0);
        step.0.lemma_validator_at(v);
        lemma_total_pending_update(s.validators, v, step.0.validators[v]);
        assert forall|other: u128| other != report.validator_id implies #[trigger] step.0.pending(
            other,
        ) == s.pending(other) by {
            if s.has_validator(other) {
                let k = s.validator_at(other);
                s.lemma_validator_found(other);
                assert(k != v);
            }
        }
        assert forall|id: u128|
            ticks_by(step.0.ticks, id) == ticks_by(s.ticks, id) + if id == report.validator_id {
                1nat
            } else {
                0nat
            } by {
            lemma_ticks_by_push(s.ticks, step.0.ticks.last(), id);
            assert(step.0.ticks =~= s.ticks.push(step.0.ticks.last()));
        }
    }
}

/// Exact credit. Whatever the sequence in which reports arrive, the sum of
/// all pending balances grows by the reward times the number of reports
/// that were recorded, each validator's balance grows by the reward times
/// the number of its own recorded reports, and nothing else changes.
pub proof fn lemma_ingest_credits_exactly(s: LedgerState, reports: Seq<TickReport>)
    requires
        s.wf(),
    ensures
        ({
            let end = s.ingest_all(reports);
            let recorded = s.recorded_count(reports);
            &&& end.wf()
            &&& end.websites == s.websites
            &&& end.intents == s.intents
            &&& recorded <= reports.len()
            &&& end.ticks.len() == s.ticks.len() + recorded
            &&& total_pending(end.validators) == total_pending(s.validators) + REWARD_PER_TICK
                * recorded
            &&& forall|id: u128|
                #[trigger] end.pending(id) == s.pending(id) + REWARD_PER_TICK * (ticks_by(
                    end.ticks,
                    id,
                ) - ticks_by(s.ticks, id))
        }),
    decreases reports.len(),
{
    if reports.len() > 0 {
        let mid = s.ingest_all(reports.drop_last());
        lemma_ingest_credits_exactly(s, reports.drop_last());
        lemma_ingest_step(mid, reports.last());
        let end = s.ingest_all(reports);
        assert forall|id: u128|
            #[trigger] end.pending(id) == s.pending(id) + REWARD_PER_TICK * (ticks_by(
                end.ticks,
                id,
            ) - ticks_by(s.ticks, id)) by {
            assert(mid.pending(id) == s.pending(id) + REWARD_PER_TICK * (ticks_by(mid.ticks, id)
                - ticks_by(s.ticks, id)));
            if mid.ingest(reports.last()).1 is Ok && id != reports.last().validator_id {
                assert(end.pending(id) == mid.pending(id));
            }
        }
    }
}

/// Serialised settlement. In a ledger that satisfies the invariant, two
/// intents of one validator that are both in flight are the same intent.
pub proof fn lemma_one_in_flight_per_validator(s: LedgerState, i: int, j: int)
    requires
        s.wf(),
        0 <= i < s.intents.len(),
        0 <= j < s.intents.len(),
        s.intents[i].state.in_flight(),
        s.intents[j].state.in_flight(),
        s.intents[i].validator_id == s.intents[j].validator_id,
    ensures
        i == j,
{
    if i < j {
        assert(s.intents[i].validator_id != s.intents[j].validator_id);
    } else if j < i {
        assert(s.intents[j].validator_id != s.intents[i].validator_id);
    }
}

/// Both halves of a settlement keep the invariant.
pub proof fn lemma_settlement_wf(
    s: LedgerState,
    validator_id: u128,
    now: i64,
    intent_id: u64,
    outcome: Result<Seq<char>, RailErrorView>,
)
    requires
        s.wf(),
    ensures
        s.begin_settlement(validator_id, now).0.wf(),
        s.complete_settlement(intent_id, outcome).0.wf(),
        s.settle(validator_id, now, outcome).0.wf(),
{
    if s.settlement_calls_rail(validator_id, now) {
        s.lemma_begin_settlement_steps(validator_id, now);
    }
    lemma_completion_wf(s, intent_id, outcome);
    let begun = s.begin_settlement(validator_id, now);
    if let Ok(SettleStepView::Transfer(request)) = begun.1 {
        lemma_completion_wf(begun.0, request.intent_id, outcome);
    }
}

proof fn lemma_completion_wf(
    s: LedgerState,
    intent_id: u64,
    outcome: Result<Seq<char>, RailErrorView>,
)
    requires
        s.wf(),
    ensures
        s.complete_settlement(intent_id, outcome).0.wf(),
{
    match outcome {
        Ok(transfer_id) => {
            s.lemma_mark_confirmed_wf(intent_id, transfer_id);
        },
        Err(RailErrorView::Rejected(reason)) => {
            s.lemma_mark_failed_wf(intent_id, reason);
        },
        Err(RailErrorView::Transient) => {},
    }
}

/// While a settlement of a validator waits for the rail, a second one is
/// refused with `Conflict` and changes nothing.
pub proof fn lemma_second_settlement_conflicts(
    s: LedgerState,
    validator_id: u128,
    first: i64,
    second: i64,
)
    requires
        s.wf(),
        s.settlement_calls_rail(validator_id, first),
    ensures
        ({
            let waiting = s.begin_settlement(validator_id, first).0;
            waiting.begin_settlement(validator_id, second) == (
                waiting,
                Err::<SettleStepView, SettleErrorView>(SettleErrorView::Conflict),
            )
        }),
{
    let waiting = s.begin_settlement(validator_id, first).0;
    s.lemma_validators_kept(waiting);
    let i = s.intents.len() as int;
    assert(waiting.intents[i].validator_id == validator_id && waiting.intents[i].state.in_flight());
}

/// No loss, no phantom credit. When the rail refuses or does not answer,
/// every balance is what it was before the answer, and the intents are as
/// many as before.
pub proof fn lemma_failed_transfer_keeps_balances(
    s: LedgerState,
    intent_id: u64,
    failure: RailErrorView,
)
    requires
        s.wf(),
    ensures
        ({
            let after = s.complete_settlement(intent_id, Err(failure)).0;
            &&& after.validators == s.validators
            &&& after.ticks == s.ticks
            &&& after.intents.len() == s.intents.len()
            &&& forall|id: u128| #[trigger] after.pending(id) == s.pending(id)
        }),
{
    let after = s.complete_settlement(intent_id, Err(failure)).0;
    assert(after.validators == s.validators);
    assert forall|id: u128| #[trigger] after.pending(id) == s.pending(id) by {
        lemma_pending_by_validators(s, after, id);
    }
}

/// The pending balance is a function of the validator table alone.
pub proof fn lemma_pending_by_validators(a: LedgerState, b: LedgerState, id: u128)
    requires
        a.validators == b.validators,
    ensures
        a.pending(id) == b.pending(id),
        a.has_validator(id) == b.has_validator(id),
{
    if a.has_validator(id) {
        let k = a.validator_at(id);
        assert(b.validators[k].id == id);
    }
    if b.has_validator(id) {
        let k = b.validator_at(id);
        assert(a.validators[k].id == id);
    }
}

/// A confirmed transfer takes exactly the amount that the intent captured
/// off its validator's balance, and touches no other balance.
pub proof fn lemma_confirmed_transfer_takes_captured_amount(
    s: LedgerState,
    intent_id: u64,
    transfer_id: Seq<char>,
)
    requires
        s.wf(),
        s.complete_settlement(intent_id, Ok(transfer_id)).1 is Ok,
    ensures
        ({
            let after = s.complete_settlement(intent_id, Ok(transfer_id)).0;
            let intent = s.intents[intent_id as int];
            &&& s.complete_settlement(intent_id, Ok(transfer_id)).1 == Ok::<
                SettleOutcomeView,
                SettleErrorView,
            >(
                SettleOutcomeView::Settled {
                    intent_id: intent_id,
                    amount: intent.amount,
                    transfer_id: transfer_id,
                },
            )
            &&& intent.amount <= s.pending(intent.validator_id)
            &&& after.pending(intent.validator_id) == s.pending(intent.validator_id)
                - intent.amount
            &&& forall|other: u128|
                other != intent.validator_id ==> #[trigger] after.pending(other) == s.pending(
                    other,
                )
            &&& after.intents[intent_id as int].state is Confirmed
            &&& after.intents[intent_id as int].amount == intent.amount
            &&& after.intents[intent_id as int].external_transfer_id == Some(transfer_id)
            &&& after.ticks == s.ticks
        }),
{
    let after = s.complete_settlement(intent_id, Ok(transfer_id)).0;
    let intent = s.intents[intent_id as int];
    let owner = intent.validator_id;
    s.lemma_mark_confirmed_wf(intent_id, transfer_id);
    assert(s.has_validator(owner));
    let v = s.validator_at(owner);
    s.lemma_validator_found(owner);
    s.lemma_validator_at(v);
    s.lemma_validators_kept(after);
    after.lemma_validator_at(v);
    assert forall|other: u128| other != owner implies #[trigger] after.pending(other) == s.pending(
        other,
    ) by {
        if s.has_validator(other) {
            let k = s.validator_at(other);
            s.lemma_validator_found(other);
            assert(k != v);
        }
    }
}

/// A settlement with nothing in its way captures the whole balance: if the
/// rail confirms, the balance after it is zero; if the rail refuses or does
/// not answer, the balance is what it was.
pub proof fn lemma_settle_balance(
    s: LedgerState,
    validator_id: u128,
    now: i64,
    outcome: Result<Seq<char>, RailErrorView>,
)
    requires
        s.wf(),
    ensures
        ({
            let done = s.settle(validator_id, now, outcome);
            &&& done.1 matches Ok(SettleOutcomeView::Settled { amount, .. }) ==> amount
                == s.pending(validator_id) && done.0.pending(validator_id) == 0
            &&& !(done.1 matches Ok(SettleOutcomeView::Settled { .. })) ==> forall|id: u128| #[trigger]
                done.0.pending(id) == s.pending(id)
            &&& done.1 matches Ok(SettleOutcomeView::NothingPending) ==> s.pending(validator_id)
                == 0 && done.0 == s
        }),
{
    let begun = s.begin_settlement(validator_id, now);
    let done = s.settle(validator_id, now, outcome);
    if let Ok(SettleStepView::Transfer(request)) = begun.1 {
        s.lemma_begin_settlement_steps(validator_id, now);
        assert(begun.0.validators == s.validators);
        match outcome {
            Ok(transfer_id) => {
                lemma_confirmed_transfer_takes_captured_amount(
                    begun.0,
                    request.intent_id,
                    transfer_id,
                );
                lemma_pending_by_validators(s, begun.0, validator_id);
            },
            Err(failure) => {
                lemma_failed_transfer_keeps_balances(begun.0, request.intent_id, failure);
                assert forall|id: u128| #[trigger] done.0.pending(id) == s.pending(id) by {
                    lemma_pending_by_validators(s, begun.0, id);
                }
            },
        }
    }
}

/// Credit that arrives while the transfer is under way survives it. After a
/// settlement has captured the balance, any sequence of reports is ingested,
/// and the rail then confirms: the validator is left with exactly the reward
/// for its ticks recorded in between.
pub proof fn lemma_credit_during_transfer_survives(
    s: LedgerState,
    validator_id: u128,
    now: i64,
    reports: Seq<TickReport>,
    transfer_id: Seq<char>,
)
    requires
        s.wf(),
        s.settlement_calls_rail(validator_id, now),
    ensures
        ({
            let waiting = s.begin_settlement(validator_id, now).0;
            let credited = waiting.ingest_all(reports);
            let done = credited.complete_settlement(s.intents.len() as u64, Ok(transfer_id));
            &&& done.1 is Ok
            &&& done.0.wf()
            &&& done.0.pending(validator_id) == REWARD_PER_TICK * (ticks_by(
                credited.ticks,
                validator_id,
            ) - ticks_by(s.ticks, validator_id))
        }),
{
    let waiting = s.begin_settlement(validator_id, now).0;
    let credited = waiting.ingest_all(reports);
    let intent_id = s.intents.len() as u64;
    s.lemma_begin_settlement_steps(validator_id, now);
    lemma_ingest_credits_exactly(waiting, reports);
    lemma_pending_by_validators(s, waiting, validator_id);
    assert(credited.intents[intent_id as int] == waiting.intents[intent_id as int]);
    lemma_confirmed_transfer_takes_captured_amount(credited, intent_id, transfer_id);
    lemma_settlement_wf(credited, validator_id, now, intent_id, Ok(transfer_id));
}

/// Different intents are transferred under different idempotency keys.
pub proof fn lemma_idempotency_keys_distinct(a: u64, b: u64)
    requires
        idempotency_key(a) == idempotency_key(b),
    ensures
        a == b,
{
    let prefix = "settlement-"@;
    let ka = idempotency_key(a);
    let kb = idempotency_key(b);
    assert(ka.skip(prefix.len() as int) =~= decimal(a as nat));
    assert(kb.skip(prefix.len() as int) =~= decimal(b as nat));
    lemma_decimal_injective(a as nat, b as nat);
}

/// Two sequences in time order that hold the same ticks are equal, provided
/// that ticks with the same identifier are the same tick.
pub proof fn lemma_time_order_unique(a: Seq<Tick>, b: Seq<Tick>)
    requires
        in_time_order(a),
        in_time_order(b),
        a.to_multiset() == b.to_multiset(),
        forall|i: int, j: int|
            0 <= i < a.len() && 0 <= j < a.len() && a[i].id == a[j].id ==> a[i] == a[j],
    ensures
        a == b,
    decreases a.len(),
{
    a.to_multiset_ensures();
    b.to_multiset_ensures();
    if a.len() == 0 {
        assert(a =~= b);
    } else {
        let x = a.last();
        let y = b.last();
        assert(a.contains(x));
        assert(b.contains(y));
        to_multiset_contains(a, x);
        to_multiset_contains(b, x);
        to_multiset_contains(a, y);
        to_multiset_contains(b, y);
        assert(b.contains(x));
        assert(a.contains(y));
        let k = choose|k: int| 0 <= k < b.len() && b[k] == x;
        let m = choose|m: int| 0 <= m < a.len() && a[m] == y;
        assert(at_or_after(y, x)) by {
            if k < b.len() - 1 {
                assert(at_or_after(b[b.len() - 1], b[k]));
            }
        }
        assert(at_or_after(x, y)) by {
            if m < a.len() - 1 {
                assert(at_or_after(a[a.len() - 1], a[m]));
            }
        }
        assert(a[m].id == a[a.len() - 1].id);
        assert(x == y);
        let shorter_a = a.drop_last();
        let shorter_b = b.drop_last();
        assert(shorter_a =~= a.remove(a.len() - 1));
        assert(shorter_b =~= b.remove(b.len() - 1));
        to_multiset_remove(a, a.len() - 1);
        to_multiset_remove(b, b.len() - 1);
        assert forall|i: int, j: int|
            0 <= i < shorter_a.len() && 0 <= j < shorter_a.len() && shorter_a[i].id
                == shorter_a[j].id implies shorter_a[i] == shorter_a[j] by {
            assert(shorter_a[i] == a[i] && shorter_a[j] == a[j]);
        }
        assert(in_time_order(shorter_a)) by {
            assert forall|i: int, j: int| 0 <= i < j < shorter_a.len() implies at_or_after(
                shorter_a[j],
                shorter_a[i],
            ) by {
                assert(shorter_a[i] == a[i] && shorter_a[j] == a[j]);
            }
        }
        assert(in_time_order(shorter_b)) by {
            assert forall|i: int, j: int| 0 <= i < j < shorter_b.len() implies at_or_after(
                shorter_b[j],
                shorter_b[i],
            ) by {
                assert(shorter_b[i] == b[i] && shorter_b[j] == b[j]);
            }
        }
        lemma_time_order_unique(shorter_a, shorter_b);
        assert(a =~= shorter_a.push(x));
        assert(b =~= shorter_b.push(y));
    }
}

/// Every tick of a history of a website is a stored tick of that website.
pub proof fn lemma_history_holds_stored_ticks(
    s: LedgerState,
    website_id: u128,
    history: Seq<Tick>,
    i: int,
)
    requires
        s.ticks_consistent(),
        s.is_history_of(website_id, history),
        0 <= i < history.len(),
    ensures
        0 <= history[i].id < s.ticks.len(),
        s.ticks[history[i].id as int] == history[i],
        history[i].website_id == website_id,
{
    let of_website = |t: Tick| t.website_id == website_id;
    let recorded = s.ticks.filter(of_website);
    assert(recorded == s.ticks_of(website_id));
    history.to_multiset_ensures();
    recorded.to_multiset_ensures();
    assert(history.contains(history[i]));
    to_multiset_contains(history, history[i]);
    to_multiset_contains(recorded, history[i]);
    assert(recorded.contains(history[i]));
    s.ticks.lemma_filter_contains_rev(of_website, history[i]);
    let p = choose|p: int| 0 <= p < s.ticks.len() && s.ticks[p] == history[i];
    assert(s.ticks[p].id == p);
    let k = choose|k: int| 0 <= k < recorded.len() && recorded[k] == history[i];
    s.ticks.lemma_filter_pred(of_website, k);
}

/// The order of a website's ticks is determined: any two histories of one
/// website are equal.
pub proof fn lemma_history_unique(s: LedgerState, website_id: u128, a: Seq<Tick>, b: Seq<Tick>)
    requires
        s.ticks_consistent(),
        s.is_history_of(website_id, a),
        s.is_history_of(website_id, b),
    ensures
        a == b,
{
    assert forall|i: int, j: int|
        0 <= i < a.len() && 0 <= j < a.len() && a[i].id == a[j].id implies a[i] == a[j] by {
        lemma_history_holds_stored_ticks(s, website_id, a, i);
        lemma_history_holds_stored_ticks(s, website_id, a, j);
    }
    lemma_time_order_unique(a, b);
}

/// The status of a website is that of the last tick of its history, and
/// unknown exactly when the history is empty.
pub proof fn lemma_status_is_end_of_history(s: LedgerState, website_id: u128, history: Seq<Tick>)
    requires
        s.ticks_consistent(),
        s.is_history_of(website_id, history),
    ensures
        s.current_status(website_id) == status_at_end(history),
{
    let of_website = |t: Tick| t.website_id == website_id;
    let recorded = s.ticks.filter(of_website);
    assert(recorded == s.ticks_of(website_id));
    history.to_multiset_ensures();
    recorded.to_multiset_ensures();
    if history.len() == 0 {
        if s.has_tick_for(website_id) {
            let j = choose|j: int| 0 <= j < s.ticks.len() && s.ticks[j].website_id == website_id;
            s.ticks.lemma_filter_contains(of_website, j);
            assert(recorded.contains(s.ticks[j]));
            to_multiset_contains(recorded, s.ticks[j]);
            to_multiset_contains(history, s.ticks[j]);
            assert(history.contains(s.ticks[j]));
        }
    } else {
        let last = history.len() - 1;
        lemma_history_holds_stored_ticks(s, website_id, history, last);
        let p = history[last].id as int;
        assert forall|j: int|
            0 <= j < s.ticks.len() && (#[trigger] s.ticks[j]).website_id
                == website_id implies at_or_after(s.ticks[p], s.ticks[j]) by {
            s.ticks.lemma_filter_contains(of_website, j);
            assert(recorded.contains(s.ticks[j]));
            to_multiset_contains(recorded, s.ticks[j]);
            to_multiset_contains(history, s.ticks[j]);
            assert(history.contains(s.ticks[j]));
            let m = choose|m: int| 0 <= m < history.len() && history[m] == s.ticks[j];
            if m < last {
                assert(at_or_after(history[last], history[m]));
            }
        }
        assert(s.is_latest_for(website_id, p));
        s.lemma_latest_unique(website_id, p);
    }
}

/// Whether `call` is the transfer request for the intent at `i`: made under
/// that intent's key, for its amount, to its validator's address.
pub open spec fn is_request_for(s: LedgerState, call: TransferCallView, i: int) -> bool {
    &&& 0 <= i < s.intents.len()
    &&& call.idempotency_key == idempotency_key(i as u64)
    &&& call.amount == s.intents[i].amount
    &&& s.has_validator(s.intents[i].validator_id)
    &&& call.address == s.validator(s.intents[i].validator_id).address
}

/// Whether `call` is the transfer request for some intent that has left
/// the `Created` state.
pub open spec fn has_intent(s: LedgerState, call: TransferCallView) -> bool {
    exists|i: int| #[trigger] is_request_for(s, call, i) && !(s.intents[i].state is Created)
}

/// Whether every transfer that a rail was asked for is the request for an
/// intent that has left the `Created` state, and no two of them were made
/// under the same key.
pub open spec fn one_request_per_intent(s: LedgerState, requested: Seq<TransferCallView>) -> bool {
    &&& forall|k: int| 0 <= k < requested.len() ==> has_intent(s, #[trigger] requested[k])
    &&& forall|a: int, b: int|
        0 <= a < b < requested.len() ==> requested[a].idempotency_key
            != requested[b].idempotency_key
}

/// Whether `next` keeps what requests are matched by: every intent's amount
/// and validator, no intent moved back to `Created`, and every validator's
/// identifier and address in place.
pub open spec fn keeps_intents_and_addresses(s: LedgerState, next: LedgerState) -> bool {
    &&& s.intents.len() <= next.intents.len()
    &&& forall|i: int|
        0 <= i < s.intents.len() ==> {
            &&& (#[trigger] next.intents[i]).amount == s.intents[i].amount
            &&& next.intents[i].validator_id == s.intents[i].validator_id
            &&& (next.intents[i].state is Created ==> s.intents[i].state is Created)
        }
    &&& s.validators.len() <= next.validators.len()
    &&& forall|k: int|
        0 <= k < s.validators.len() ==> {
            &&& (#[trigger] next.validators[k]).id == s.validators[k].id
            &&& next.validators[k].address == s.validators[k].address
        }
}

/// A ledger that keeps intents and addresses keeps the requests that were
/// made matched to their intents.
pub proof fn lemma_requests_stay_matched(
    s: LedgerState,
    next: LedgerState,
    requested: Seq<TransferCallView>,
)
    requires
        s.wf(),
        next.wf(),
        one_request_per_intent(s, requested),
        keeps_intents_and_addresses(s, next),
    ensures
        one_request_per_intent(next, requested),
{
    s.lemma_validators_kept(next);
    assert forall|k: int| 0 <= k < requested.len() implies has_intent(
        next,
        #[trigger] requested[k],
    ) by {
        assert(has_intent(s, requested[k]));
        let i = choose|i: int| #[trigger]
            is_request_for(s, requested[k], i) && !(s.intents[i].state is Created);
        let owner = s.intents[i].validator_id;
        s.lemma_validator_found(owner);
        assert(next.intents[i].amount == s.intents[i].amount);
        assert(next.validators[s.validator_at(owner)].address == s.validators[s.validator_at(
            owner,
        )].address);
        assert(is_request_for(next, requested[k], i));
    }
}

/// Changing one validator's balance or lock flag keeps intents and
/// addresses.
proof fn lemma_validator_change_keeps(s: LedgerState, next: LedgerState, pos: int)
    requires
        0 <= pos < s.validators.len(),
        next.intents == s.intents,
        next.validators == s.validators.update(pos, next.validators[pos]),
        next.validators[pos].id == s.validators[pos].id,
        next.validators[pos].address == s.validators[pos].address,
    ensures
        keeps_intents_and_addresses(s, next),
{
}

/// Changing the state, transfer identifier or failure reason of one intent,
/// other than back to `Created`, keeps intents and addresses.
proof fn lemma_intent_change_keeps(s: LedgerState, next: LedgerState, i: int)
    requires
        0 <= i < s.intents.len(),
        next.intents == s.intents.update(i, next.intents[i]),
        next.intents[i].amount == s.intents[i].amount,
        next.intents[i].validator_id == s.intents[i].validator_id,
        !(next.intents[i].state is Created),
        next.validators.len() == s.validators.len(),
        forall|k: int|
            0 <= k < s.validators.len() ==> {
                &&& (#[trigger] next.validators[k]).id == s.validators[k].id
                &&& next.validators[k].address == s.validators[k].address
            },
    ensures
        keeps_intents_and_addresses(s, next),
{
}

/// Every operation of the ledger store keeps intents and addresses.
pub proof fn lemma_apply_keeps_intents_and_addresses(s: LedgerState, op: LedgerOp)
    requires
        s.wf(),
    ensures
        keeps_intents_and_addresses(s, s.apply(op)),
{
    let next = s.apply(op);
    match op {
        LedgerOp::AddWebsite { id, url, user_id, disabled } => {},
        LedgerOp::DisableWebsite { id, user_id } => {},
        LedgerOp::RegisterValidator { id, address } => {},
        LedgerOp::RecordTick { website_id, validator_id, status, latency, timestamp } => {
            if s.record_tick(website_id, validator_id, status, latency, timestamp).1 is Ok {
                s.lemma_validator_found(validator_id);
                lemma_validator_change_keeps(s, next, s.validator_at(validator_id));
            }
        },
        LedgerOp::LockValidator { id } => {
            if s.lock_validator(id).1 is Ok {
                s.lemma_validator_found(id);
                lemma_validator_change_keeps(s, next, s.validator_at(id));
            }
        },
        LedgerOp::ReleaseValidator { id } => {
            if s.release_validator(id).1 is Ok {
                s.lemma_validator_found(id);
                lemma_validator_change_keeps(s, next, s.validator_at(id));
            }
        },
        LedgerOp::WriteIntent { validator_id, amount, created_at } => {},
        LedgerOp::MarkSubmitted { intent_id } => {
            if s.mark_submitted(intent_id).1 is Ok {
                lemma_intent_change_keeps(s, next, intent_id as int);
            }
        },
        LedgerOp::MarkConfirmed { intent_id, transfer_id } => {
            if s.mark_confirmed(intent_id, transfer_id).1 is Ok {
                let owner = s.intents[intent_id as int].validator_id;
                assert(s.has_validator(owner));
                s.lemma_validator_found(owner);
                lemma_intent_change_keeps(s, next, intent_id as int);
            }
        },
        LedgerOp::MarkFailed { intent_id, reason } => {
            if s.mark_failed(intent_id, reason).1 is Ok {
                lemma_intent_change_keeps(s, next, intent_id as int);
            }
        },
    }
}

/// No operation of the ledger store unmatches a request: tick ingestion,
/// website changes, locks and intent transitions leave every request that
/// was made with its intent.
pub proof fn lemma_apply_keeps_requests(
    s: LedgerState,
    op: LedgerOp,
    requested: Seq<TransferCallView>,
)
    requires
        s.wf(),
        one_request_per_intent(s, requested),
    ensures
        one_request_per_intent(s.apply(op), requested),
{
    lemma_apply_wf(s, op);
    lemma_apply_keeps_intents_and_addresses(s, op);
    lemma_requests_stay_matched(s, s.apply(op), requested);
}

/// At most one transfer per intent. If every request made so far belongs to
/// an intent of its own, then so does every request after one more
/// settlement, whatever the rail answers: the settlement asks for at most
/// one transfer, for an intent that it has just written, under a key that
/// no earlier request was made under.
pub proof fn lemma_settle_requests_once(
    s: LedgerState,
    requested: Seq<TransferCallView>,
    validator_id: u128,
    now: i64,
    outcome: Result<Seq<char>, RailErrorView>,
)
    requires
        s.wf(),
        one_request_per_intent(s, requested),
    ensures
        one_request_per_intent(
            s.settle(validator_id, now, outcome).0,
            requested + s.settlement_requests(validator_id, now),
        ),
{
    let done = s.settle(validator_id, now, outcome).0;
    let asked = requested + s.settlement_requests(validator_id, now);
    lemma_settlement_wf(s, validator_id, now, 0, outcome);
    if s.settlement_calls_rail(validator_id, now) {
        let begun = s.begin_settlement(validator_id, now).0;
        let fresh = s.intents.len() as int;
        s.lemma_begin_settlement_steps(validator_id, now);
        lemma_requests_stay_matched(s, begun, requested);
        let call = s.settlement_requests(validator_id, now)[0];
        s.lemma_validators_kept(begun);
        assert(begun.intents[fresh].validator_id == validator_id);
        assert(is_request_for(begun, call, fresh));
        assert(asked =~= requested.push(call));
        assert forall|k: int| 0 <= k < asked.len() implies has_intent(
            begun,
            #[trigger] asked[k],
        ) by {
            if k < requested.len() {
                assert(has_intent(begun, requested[k]));
            } else {
                assert(is_request_for(begun, asked[k], fresh));
            }
        }
        assert forall|a: int, b: int| 0 <= a < b < asked.len() implies asked[a].idempotency_key
            != asked[b].idempotency_key by {
            if b == requested.len() {
                assert(has_intent(s, requested[a]));
                let i = choose|i: int| #[trigger]
                    is_request_for(s, requested[a], i) && !(s.intents[i].state is Created);
                if idempotency_key(i as u64) == idempotency_key(fresh as u64) {
                    lemma_idempotency_keys_distinct(i as u64, fresh as u64);
                }
            }
        }
        assert(one_request_per_intent(begun, asked));
        lemma_settlement_wf(begun, validator_id, now, fresh as u64, outcome);
        lemma_completion_keeps_intents(begun, fresh as u64, outcome);
        lemma_requests_stay_matched(begun, done, asked);
    } else {
        assert(asked =~= requested);
    }
}

/// Reconciliation leaves every request that was made with its intent.
pub proof fn lemma_reconcile_keeps_requests(
    s: LedgerState,
    intent_id: u64,
    lookup: LookupView,
    now: i64,
    grace_seconds: u64,
    requested: Seq<TransferCallView>,
)
    requires
        s.wf(),
        one_request_per_intent(s, requested),
    ensures
        one_request_per_intent(s.reconcile(intent_id, lookup, now, grace_seconds).0, requested),
{
    if s.awaits_reconciliation(intent_id) {
        let submit = LedgerOp::MarkSubmitted { intent_id: intent_id };
        let submitted = if s.intents[intent_id as int].state is Created {
            s.apply(submit)
        } else {
            s
        };
        lemma_apply_wf(s, submit);
        lemma_apply_keeps_requests(s, submit, requested);
        match reconciliation(lookup, s.intents[intent_id as int].created_at, now, grace_seconds) {
            ReconciliationView::Confirmed { transfer_id } => {
                lemma_apply_keeps_requests(
                    submitted,
                    LedgerOp::MarkConfirmed { intent_id: intent_id, transfer_id: transfer_id },
                    requested,
                );
            },
            ReconciliationView::StillSubmitted => {},
            ReconciliationView::Abandoned { alert } => {
                lemma_apply_keeps_requests(
                    submitted,
                    LedgerOp::MarkFailed { intent_id: intent_id, reason: alert.reason() },
                    requested,
                );
            },
        }
    }
}

/// Applying the rail's answer keeps intents and addresses.
proof fn lemma_completion_keeps_intents(
    s: LedgerState,
    intent_id: u64,
    outcome: Result<Seq<char>, RailErrorView>,
)
    requires
        s.wf(),
    ensures
        keeps_intents_and_addresses(s, s.complete_settlement(intent_id, outcome).0),
{
    let next = s.complete_settlement(intent_id, outcome).0;
    if s.complete_settlement(intent_id, outcome).1 is Ok {
        let owner = s.intents[intent_id as int].validator_id;
        assert(s.has_validator(owner));
        s.lemma_validator_found(owner);
        lemma_intent_change_keeps(s, next, intent_id as int);
    } else if next != s {
        lemma_intent_change_keeps(s, next, intent_id as int);
    }
}

} // verus!
