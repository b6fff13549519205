//! Every operation of the ledger keeps the ledger invariant.

use vstd::prelude::*;
use crate::records::{IntentState, IntentView, Tick, TickStatus, ValidatorView, REWARD_PER_TICK};
use crate::state::{at_or_after, settled_amount, settled_total, ticks_by, total_pending, LedgerState};

verus! {

pub proof fn lemma_ticks_by_push(ticks: Seq<Tick>, tick: Tick, validator_id: u128)
    ensures
        ticks_by(ticks.push(tick), validator_id) == ticks_by(ticks, validator_id) + if tick.validator_id
            == validator_id {
            1nat
        } else {
            0nat
        },
{
    assert(ticks.push(tick).drop_last() =~= ticks);
}

pub proof fn lemma_ticks_by_absent(ticks: Seq<Tick>, validator_id: u128)
    requires
        forall|i: int| 0 <= i < ticks.len() ==> ticks[i].validator_id != validator_id,
    ensures
        ticks_by(ticks, validator_id) == 0,
    decreases ticks.len(),
{
    if ticks.len() > 0 {
        lemma_ticks_by_absent(ticks.drop_last(), validator_id);
    }
}

pub proof fn lemma_settled_push(intents: Seq<IntentView>, intent: IntentView, validator_id: u128)
    ensures
        settled_total(intents.push(intent), validator_id) == settled_total(intents, validator_id)
            + settled_amount(intent, validator_id),
{
    assert(intents.push(intent).drop_last() =~= intents);
}

pub proof fn lemma_settled_absent(intents: Seq<IntentView>, validator_id: u128)
    requires
        forall|i: int| 0 <= i < intents.len() ==> intents[i].validator_id != validator_id,
    ensures
        settled_total(intents, validator_id) == 0,
    decreases intents.len(),
{
    if intents.len() > 0 {
        lemma_settled_absent(intents.drop_last(), validator_id);
    }
}

pub proof fn lemma_settled_update(
    intents: Seq<IntentView>,
    i: int,
    intent: IntentView,
    validator_id: u128,
)
    requires
        0 <= i < intents.len(),
    ensures
        settled_total(intents.update(i, intent), validator_id) + settled_amount(
            intents[i],
            validator_id,
        ) == settled_total(intents, validator_id) + settled_amount(intent, validator_id),
    decreases intents.len(),
{
    if i == intents.len() - 1 {
        assert(intents.update(i, intent).drop_last() =~= intents.drop_last());
    } else {
        lemma_settled_update(intents.drop_last(), i, intent, validator_id);
        assert(intents.update(i, intent).drop_last() =~= intents.drop_last().update(i, intent));
    }
}

pub proof fn lemma_total_pending_update(
    validators: Seq<ValidatorView>,
    i: int,
    validator: ValidatorView,
)
    requires
        0 <= i < validators.len(),
    ensures
        total_pending(validators.update(i, validator)) + validators[i].pending_amount
            == total_pending(validators) + validator.pending_amount,
    decreases validators.len(),
{
    if i == validators.len() - 1 {
        assert(validators.update(i, validator).drop_last() =~= validators.drop_last());
    } else {
        lemma_total_pending_update(validators.drop_last(), i, validator);
        assert(validators.update(i, validator).drop_last() =~= validators.drop_last().update(
            i,
            validator,
        ));
    }
}

impl LedgerState {
    /// With unique identifiers, the validator stored at `k` is the one found
    /// under its identifier.
    pub proof fn lemma_validator_at(self, k: int)
        requires
            self.ids_unique(),
            0 <= k < self.validators.len(),
        ensures
            self.has_validator(self.validators[k].id),
            self.validator_at(self.validators[k].id) == k,
            self.validator(self.validators[k].id) == self.validators[k],
    {
        let id = self.validators[k].id;
        let c = self.validator_at(id);
        assert(0 <= c < self.validators.len() && self.validators[c].id == id);
        if c < k {
            assert(self.validators[c].id != self.validators[k].id);
        } else if k < c {
            assert(self.validators[k].id != self.validators[c].id);
        }
    }

    /// With unique identifiers, the website stored at `k` is the one found
    /// under its identifier.
    pub proof fn lemma_website_at(self, k: int)
        requires
            self.ids_unique(),
            0 <= k < self.websites.len(),
        ensures
            self.has_website(self.websites[k].id),
            self.website_at(self.websites[k].id) == k,
    {
        let id = self.websites[k].id;
        let c = self.website_at(id);
        assert(0 <= c < self.websites.len() && self.websites[c].id == id);
        if c < k {
            assert(self.websites[c].id != self.websites[k].id);
        } else if k < c {
            assert(self.websites[k].id != self.websites[c].id);
        }
    }

    /// A stored validator is found at a valid position.
    pub proof fn lemma_validator_found(self, id: u128)
        requires
            self.has_validator(id),
        ensures
            0 <= self.validator_at(id) < self.validators.len(),
            self.validators[self.validator_at(id)].id == id,
    {
    }

    /// With at most one intent in flight per validator, the in-flight intent
    /// stored at `i` is the one found under its validator.
    pub proof fn lemma_in_flight_at(self, i: int)
        requires
            self.single_in_flight(),
            0 <= i < self.intents.len(),
            self.intents[i].state.in_flight(),
        ensures
            self.has_in_flight(self.intents[i].validator_id),
            self.in_flight_at(self.intents[i].validator_id) == i,
    {
        let id = self.intents[i].validator_id;
        let c = self.in_flight_at(id);
        assert(0 <= c < self.intents.len() && self.intents[c].validator_id == id
            && self.intents[c].state.in_flight());
        if c < i {
            assert(self.intents[c].validator_id != self.intents[i].validator_id);
        } else if i < c {
            assert(self.intents[i].validator_id != self.intents[c].validator_id);
        }
    }

    /// A state that keeps every validator's identifier in place, and may add
    /// validators behind them, finds each old validator where it was.
    pub proof fn lemma_validators_kept(self, next: LedgerState)
        requires
            self.ids_unique(),
            next.ids_unique(),
            self.validators.len() <= next.validators.len(),
            forall|k: int|
                0 <= k < self.validators.len() ==> (#[trigger] next.validators[k]).id
                    == self.validators[k].id,
        ensures
            forall|id: u128| #[trigger]
                self.has_validator(id) ==> next.has_validator(id) && next.validator_at(id)
                    == self.validator_at(id),
            self.validators.len() == next.validators.len() ==> forall|id: u128| #[trigger]
                next.has_validator(id) ==> self.has_validator(id),
    {
        assert forall|id: u128| #[trigger] self.has_validator(id) implies next.has_validator(id)
            && next.validator_at(id) == self.validator_at(id) by {
            let k = self.validator_at(id);
            assert(next.validators[k].id == id);
            next.lemma_validator_at(k);
        }
        if self.validators.len() == next.validators.len() {
            assert forall|id: u128| #[trigger] next.has_validator(id) implies self.has_validator(
                id,
            ) by {
                let k = next.validator_at(id);
                assert(next.validators[k].id == self.validators[k].id);
            }
        }
    }

    /// A state that keeps every website's identifier in place, and may add
    /// websites behind them, finds each old website where it was.
    pub proof fn lemma_websites_kept(self, next: LedgerState)
        requires
            self.ids_unique(),
            next.ids_unique(),
            self.websites.len() <= next.websites.len(),
            forall|k: int|
                0 <= k < self.websites.len() ==> (#[trigger] next.websites[k]).id
                    == self.websites[k].id,
        ensures
            forall|id: u128| #[trigger]
                self.has_website(id) ==> next.has_website(id) && next.website_at(id)
                    == self.website_at(id),
    {
        assert forall|id: u128| #[trigger] self.has_website(id) implies next.has_website(id)
            && next.website_at(id) == self.website_at(id) by {
            let k = self.website_at(id);
            assert(next.websites[k].id == id);
            next.lemma_website_at(k);
        }
    }

    pub proof fn lemma_add_website_wf(self, id: u128, url: Seq<char>, user_id: u128, disabled: bool)
        requires
            self.wf(),
        ensures
            self.add_website(id, url, user_id, disabled).0.wf(),
    {
        let next = self.add_website(id, url, user_id, disabled).0;
        if !self.has_website(id) {
            assert(next.ids_unique());
            self.lemma_websites_kept(next);
            self.lemma_validators_kept(next);
        }
    }

    pub proof fn lemma_disable_website_wf(self, id: u128, user_id: u128)
        requires
            self.wf(),
        ensures
            self.disable_website(id, user_id).0.wf(),
    {
        let next = self.disable_website(id, user_id).0;
        if self.disable_website(id, user_id).1 is Ok {
            assert(next.ids_unique());
            self.lemma_websites_kept(next);
            self.lemma_validators_kept(next);
        }
    }

    pub proof fn lemma_register_validator_wf(self, id: u128, address: Seq<char>)
        requires
            self.wf(),
        ensures
            self.register_validator(id, address).0.wf(),
    {
        let next = self.register_validator(id, address).0;
        if !self.has_validator(id) {
            assert(next.ids_unique());
            self.lemma_websites_kept(next);
            self.lemma_validators_kept(next);
            assert forall|i: int| 0 <= i < next.intents.len() implies {
                &&& (#[trigger] next.intents[i]).state.in_flight() ==> next.intents[i].amount
                    <= next.pending(next.intents[i].validator_id)
            } by {
                let owner = self.intents[i].validator_id;
                assert(self.has_validator(owner));
            }
            assert forall|k: int| 0 <= k < next.validators.len() implies (
            #[trigger] next.validators[k]).pending_amount + settled_total(
                next.intents,
                next.validators[k].id,
            ) == REWARD_PER_TICK * ticks_by(next.ticks, next.validators[k].id) by {
                if k == self.validators.len() {
                    assert forall|i: int| 0 <= i < self.ticks.len() implies self.ticks[i].validator_id
                        != id by {
                        assert(self.has_validator(self.ticks[i].validator_id));
                    }
                    assert forall|i: int| 0 <= i < self.intents.len() implies self.intents[i].validator_id
                        != id by {
                        assert(self.has_validator(self.intents[i].validator_id));
                    }
                    lemma_ticks_by_absent(self.ticks, id);
                    lemma_settled_absent(self.intents, id);
                } else {
                    assert(next.validators[k] == self.validators[k]);
                }
            }
        }
    }

    /// Replacing one validator's balance, with the websites and every other
    /// field of the validators in place, moves no identifier and changes no
    /// other balance.
    proof fn lemma_balance_change_frame(self, next: LedgerState, pos: int)
        requires
            self.wf(),
            0 <= pos < self.validators.len(),
            next.websites == self.websites,
            next.validators == self.validators.update(
                pos,
                ValidatorView {
                    pending_amount: next.validators[pos].pending_amount,
                    ..self.validators[pos]
                },
            ),
        ensures
            next.ids_unique(),
            forall|id: u128| #[trigger]
                self.has_validator(id) ==> next.has_validator(id) && next.validator_at(id)
                    == self.validator_at(id),
            forall|id: u128| #[trigger] next.has_validator(id) ==> self.has_validator(id),
            forall|id: u128| #[trigger]
                self.has_website(id) ==> next.has_website(id) && next.website_at(id)
                    == self.website_at(id),
            forall|id: u128|
                id != self.validators[pos].id ==> #[trigger] next.pending(id) == self.pending(id),
            next.pending(self.validators[pos].id) == next.validators[pos].pending_amount,
    {
        assert(next.ids_unique());
        self.lemma_validators_kept(next);
        self.lemma_websites_kept(next);
        self.lemma_validator_at(pos);
        next.lemma_validator_at(pos);
        assert forall|id: u128| id != self.validators[pos].id implies #[trigger] next.pending(id)
            == self.pending(id) by {
            if self.has_validator(id) {
                let k = self.validator_at(id);
                assert(k != pos);
            }
        }
    }

    pub proof fn lemma_record_tick_wf(
        self,
        website_id: u128,
        validator_id: u128,
        status: TickStatus,
        latency: u64,
        timestamp: i64,
    )
        requires
            self.wf(),
        ensures
            self.record_tick(website_id, validator_id, status, latency, timestamp).0.wf(),
    {
        let step = self.record_tick(website_id, validator_id, status, latency, timestamp);
        let next = step.0;
        if step.1 is Ok {
            let v = self.validator_at(validator_id);
            self.lemma_validator_found(validator_id);
            self.lemma_validator_at(v);
            self.lemma_balance_change_frame(next, v);
            let tick = next.ticks.last();
            assert(next.ticks.drop_last() =~= self.ticks);
            assert forall|i: int| 0 <= i < next.ticks.len() implies {
                &&& (#[trigger] next.ticks[i]).id == i
                &&& next.has_website(next.ticks[i].website_id)
                &&& next.has_validator(next.ticks[i].validator_id)
            } by {
                if i < self.ticks.len() {
                    assert(next.ticks[i] == self.ticks[i]);
                    assert(self.has_website(self.ticks[i].website_id));
                    assert(self.has_validator(self.ticks[i].validator_id));
                } else {
                    assert(self.has_website(website_id));
                    assert(self.has_validator(validator_id));
                }
            }
            assert forall|i: int| 0 <= i < next.intents.len() implies {
                &&& next.has_validator((#[trigger] next.intents[i]).validator_id)
                &&& (next.intents[i].state.in_flight() ==> next.intents[i].amount <= next.pending(
                    next.intents[i].validator_id,
                ))
            } by {
                let owner = self.intents[i].validator_id;
                assert(self.has_validator(owner));
            }
            assert forall|k: int| 0 <= k < next.validators.len() implies (
            #[trigger] next.validators[k]).pending_amount + settled_total(
                next.intents,
                next.validators[k].id,
            ) == REWARD_PER_TICK * ticks_by(next.ticks, next.validators[k].id) by {
                lemma_ticks_by_push(self.ticks, tick, self.validators[k].id);
                assert(next.ticks =~= self.ticks.push(tick));
                if k != v {
                    assert(self.validators[k].id != self.validators[v].id);
                }
            }
        }
    }

    pub proof fn lemma_lock_validator_wf(self, id: u128)
        requires
            self.wf(),
        ensures
            self.lock_validator(id).0.wf(),
            self.release_validator(id).0.wf(),
    {
        if self.has_validator(id) {
            let v = self.validator_at(id);
            self.lemma_validator_found(id);
            self.lemma_lock_flag_wf(v, true);
            self.lemma_lock_flag_wf(v, false);
        }
    }

    /// Setting a lock flag keeps the invariant.
    pub proof fn lemma_lock_flag_wf(self, pos: int, locked: bool)
        requires
            self.wf(),
            0 <= pos < self.validators.len(),
        ensures
            self.with_locked(pos, locked).wf(),
    {
        let next = self.with_locked(pos, locked);
        assert(next.ids_unique());
        self.lemma_validators_kept(next);
        self.lemma_websites_kept(next);
        assert forall|i: int| 0 <= i < next.intents.len() implies {
            &&& next.has_validator((#[trigger] next.intents[i]).validator_id)
            &&& (next.intents[i].state.in_flight() ==> next.intents[i].amount <= next.pending(
                next.intents[i].validator_id,
            ))
        } by {
            let owner = self.intents[i].validator_id;
            assert(self.has_validator(owner));
            let k = self.validator_at(owner);
            assert(next.validators[k].pending_amount == self.validators[k].pending_amount);
        }
        assert forall|i: int| 0 <= i < next.ticks.len() implies {
            &&& next.has_website((#[trigger] next.ticks[i]).website_id)
            &&& next.has_validator(next.ticks[i].validator_id)
        } by {
            assert(self.has_website(self.ticks[i].website_id));
            assert(self.has_validator(self.ticks[i].validator_id));
        }
        assert forall|k: int| 0 <= k < next.validators.len() implies (
        #[trigger] next.validators[k]).pending_amount + settled_total(
            next.intents,
            next.validators[k].id,
        ) == REWARD_PER_TICK * ticks_by(next.ticks, next.validators[k].id) by {
            assert(next.validators[k].pending_amount == self.validators[k].pending_amount);
            assert(next.validators[k].id == self.validators[k].id);
        }
    }

    pub proof fn lemma_write_intent_wf(self, id: u128, amount: u64, created_at: i64)
        requires
            self.wf(),
        ensures
            self.write_intent(id, amount, created_at).0.wf(),
    {
        let step = self.write_intent(id, amount, created_at);
        let next = step.0;
        if step.1 is Ok {
            let intent = next.intents.last();
            assert(next.intents =~= self.intents.push(intent));
            self.lemma_validators_kept(next);
            self.lemma_websites_kept(next);
            assert forall|k: int| 0 <= k < next.ticks.len() implies {
                &&& next.has_website((#[trigger] next.ticks[k]).website_id)
                &&& next.has_validator(next.ticks[k].validator_id)
            } by {
                assert(self.has_website(self.ticks[k].website_id));
                assert(self.has_validator(self.ticks[k].validator_id));
            }
            assert forall|a: int| 0 <= a < next.intents.len() implies {
                &&& next.has_validator((#[trigger] next.intents[a]).validator_id)
                &&& (next.intents[a].state.in_flight() ==> next.intents[a].amount <= next.pending(
                    next.intents[a].validator_id,
                ))
            } by {
                if a < self.intents.len() {
                    assert(self.has_validator(self.intents[a].validator_id));
                } else {
                    assert(self.has_validator(id));
                }
            }
            assert forall|i: int, j: int|
                0 <= i < j < next.intents.len() && (#[trigger] next.intents[i]).state.in_flight()
                    && (#[trigger] next.intents[j]).state.in_flight() implies next.intents[i].validator_id
                != next.intents[j].validator_id by {
                if j == self.intents.len() {
                    assert(self.intents[i].state.in_flight());
                    if self.intents[i].validator_id == id {
                        assert(self.has_in_flight(id));
                    }
                } else {
                    assert(self.intents[i].state.in_flight());
                    assert(self.intents[j].state.in_flight());
                }
            }
            assert forall|k: int| 0 <= k < next.validators.len() implies (
            #[trigger] next.validators[k]).pending_amount + settled_total(
                next.intents,
                next.validators[k].id,
            ) == REWARD_PER_TICK * ticks_by(next.ticks, next.validators[k].id) by {
                lemma_settled_push(self.intents, intent, self.validators[k].id);
            }
        }
    }

    /// Replacing the intent at `i` by one that differs in state, transfer
    /// identifier and failure reason only, and is not confirmed, keeps the
    /// invariant, provided that it is in flight only if the old one was.
    proof fn lemma_intent_step_wf(self, i: int, intent: IntentView)
        requires
            self.wf(),
            0 <= i < self.intents.len(),
            intent.id == self.intents[i].id,
            intent.validator_id == self.intents[i].validator_id,
            intent.amount == self.intents[i].amount,
            !(intent.state is Confirmed),
            !(self.intents[i].state is Confirmed),
            intent.external_transfer_id is None,
            intent.state.in_flight() ==> self.intents[i].state.in_flight(),
        ensures
            (LedgerState { intents: self.intents.update(i, intent), ..self }).wf(),
    {
        let next = LedgerState { intents: self.intents.update(i, intent), ..self };
        self.lemma_validators_kept(next);
        self.lemma_websites_kept(next);
        assert forall|k: int| 0 <= k < next.ticks.len() implies {
            &&& next.has_website((#[trigger] next.ticks[k]).website_id)
            &&& next.has_validator(next.ticks[k].validator_id)
        } by {
            assert(self.has_website(self.ticks[k].website_id));
            assert(self.has_validator(self.ticks[k].validator_id));
        }
        assert forall|a: int| 0 <= a < next.intents.len() implies {
            &&& next.has_validator((#[trigger] next.intents[a]).validator_id)
            &&& (next.intents[a].state.in_flight() ==> next.intents[a].amount <= next.pending(
                next.intents[a].validator_id,
            ))
        } by {
            assert(self.has_validator(self.intents[a].validator_id));
        }
        assert forall|a: int, b: int|
            0 <= a < b < next.intents.len() && (#[trigger] next.intents[a]).state.in_flight() && (
            #[trigger] next.intents[b]).state.in_flight() implies next.intents[a].validator_id
            != next.intents[b].validator_id by {
            assert(self.intents[a].state.in_flight());
            assert(self.intents[b].state.in_flight());
        }
        assert forall|k: int| 0 <= k < next.validators.len() implies (
        #[trigger] next.validators[k]).pending_amount + settled_total(
            next.intents,
            next.validators[k].id,
        ) == REWARD_PER_TICK * ticks_by(next.ticks, next.validators[k].id) by {
            lemma_settled_update(self.intents, i, intent, self.validators[k].id);
        }
    }

    pub proof fn lemma_mark_submitted_wf(self, intent_id: u64)
        requires
            self.wf(),
        ensures
            self.mark_submitted(intent_id).0.wf(),
    {
        if self.mark_submitted(intent_id).1 is Ok {
            let i = intent_id as int;
            self.lemma_intent_step_wf(
                i,
                IntentView { state: IntentState::Submitted, ..self.intents[i] },
            );
        }
    }

    pub proof fn lemma_mark_failed_wf(self, intent_id: u64, reason: Seq<char>)
        requires
            self.wf(),
        ensures
            self.mark_failed(intent_id, reason).0.wf(),
    {
        if self.mark_failed(intent_id, reason).1 is Ok {
            let i = intent_id as int;
            self.lemma_intent_step_wf(
                i,
                IntentView {
                    state: IntentState::Failed,
                    failure_reason: Some(reason),
                    ..self.intents[i]
                },
            );
        }
    }

    pub proof fn lemma_mark_confirmed_wf(self, intent_id: u64, transfer_id: Seq<char>)
        requires
            self.wf(),
        ensures
            self.mark_confirmed(intent_id, transfer_id).0.wf(),
            self.mark_confirmed(intent_id, transfer_id).1 is Ok ==> self.intents[intent_id as int].amount
                <= self.pending(self.intents[intent_id as int].validator_id),
    {
        let step = self.mark_confirmed(intent_id, transfer_id);
        let next = step.0;
        if step.1 is Ok {
            let i = intent_id as int;
            let old_intent = self.intents[i];
            let owner = old_intent.validator_id;
            assert(self.has_validator(owner));
            let v = self.validator_at(owner);
            self.lemma_validator_found(owner);
            self.lemma_validator_at(v);
            assert(old_intent.state.in_flight());
            assert(old_intent.amount <= self.pending(owner));
            let paid = self.with_pending(
                v,
                (self.validators[v].pending_amount - old_intent.amount) as u64,
            );
            self.lemma_balance_change_frame(paid, v);
            let new_intent = next.intents[i];
            assert(next.validators == paid.validators);
            assert(next.ids_unique());
            self.lemma_validators_kept(next);
            self.lemma_websites_kept(next);
            assert forall|k: int| 0 <= k < next.ticks.len() implies {
                &&& next.has_website((#[trigger] next.ticks[k]).website_id)
                &&& next.has_validator(next.ticks[k].validator_id)
            } by {
                assert(self.has_website(self.ticks[k].website_id));
                assert(self.has_validator(self.ticks[k].validator_id));
            }
            assert forall|a: int| 0 <= a < next.intents.len() implies {
                &&& (#[trigger] next.intents[a]).id == a
                &&& next.has_validator(next.intents[a].validator_id)
                &&& next.intents[a].amount > 0
                &&& (next.intents[a].state is Confirmed
                    <==> next.intents[a].external_transfer_id is Some)
                &&& (next.intents[a].state.in_flight() ==> next.intents[a].amount <= next.pending(
                    next.intents[a].validator_id,
                ))
            } by {
                let o = self.intents[a].validator_id;
                assert(self.has_validator(o));
                if a != i && self.intents[a].state.in_flight() {
                    if a < i {
                        assert(self.intents[a].validator_id != self.intents[i].validator_id);
                    } else {
                        assert(self.intents[i].validator_id != self.intents[a].validator_id);
                    }
                    assert(self.validator_at(o) != v);
                    assert(next.validator_at(o) == self.validator_at(o));
                }
            }
            assert forall|a: int, b: int|
                0 <= a < b < next.intents.len() && (#[trigger] next.intents[a]).state.in_flight() && (
                #[trigger] next.intents[b]).state.in_flight() implies next.intents[a].validator_id
                != next.intents[b].validator_id by {
                assert(self.intents[a].state.in_flight());
                assert(self.intents[b].state.in_flight());
            }
            assert forall|k: int| 0 <= k < next.validators.len() implies (
            #[trigger] next.validators[k]).pending_amount + settled_total(
                next.intents,
                next.validators[k].id,
            ) == REWARD_PER_TICK * ticks_by(next.ticks, next.validators[k].id) by {
                lemma_settled_update(self.intents, i, new_intent, self.validators[k].id);
                if k != v {
                    assert(self.validators[k].id != self.validators[v].id);
                }
            }
        }
    }

    /// Identifiers break ties, so at most one tick is the latest of a website.
    pub proof fn lemma_latest_unique(self, website_id: u128, i: int)
        requires
            self.ticks_consistent(),
            self.is_latest_for(website_id, i),
        ensures
            self.has_tick_for(website_id),
            self.latest_for(website_id) == i,
    {
        let c = self.latest_for(website_id);
        assert(self.is_latest_for(website_id, c));
        assert(at_or_after(self.ticks[i], self.ticks[c]));
        assert(at_or_after(self.ticks[c], self.ticks[i]));
        assert(self.ticks[i].id == i);
        assert(self.ticks[c].id == c);
    }
}

} // verus!
