//! The payout settlement engine: converts a validator's pending balance into
//! exactly one external transfer, with a write-ahead intent between the
//! decision and the transfer.

use vstd::prelude::*;
use crate::ledger::Ledger;
use crate::rail::{
    outcome_view, Audited, PaymentRail, RailError, RailErrorView, TransferCallView,
};
use crate::records::{IntentState, IntentView, LedgerError};
use crate::state::LedgerState;
use crate::text::{decimal, push_decimal};

verus! {

/// What the engine asks the payment rail to do for one intent.
#[derive(Clone, Debug, PartialEq, Eq)]
pub struct TransferRequest {
    pub intent_id: u64,
    pub validator_id: u128,
    pub address: String,
    pub amount: u64,
    pub idempotency_key: String,
}

/// `TransferRequest` as a mathematical value: texts are sequences of characters.
pub struct TransferRequestView {
    pub intent_id: u64,
    pub validator_id: u128,
    pub address: Seq<char>,
    pub amount: u64,
    pub idempotency_key: Seq<char>,
}

impl View for TransferRequest {
    type V = TransferRequestView;

    open spec fn view(&self) -> TransferRequestView {
        TransferRequestView {
            intent_id: self.intent_id,
            validator_id: self.validator_id,
            address: self.address@,
            amount: self.amount,
            idempotency_key: self.idempotency_key@,
        }
    }
}

/// Where a settlement stands once the intent is durable: nothing to do, or
/// a transfer to make.
#[derive(Clone, Debug, PartialEq, Eq)]
pub enum SettleStep {
    NothingPending,
    Transfer(TransferRequest),
}

/// `SettleStep` as a mathematical value: texts are sequences of characters.
pub enum SettleStepView {
    NothingPending,
    Transfer(TransferRequestView),
}

impl View for SettleStep {
    type V = SettleStepView;

    open spec fn view(&self) -> SettleStepView {
        match self {
            SettleStep::NothingPending => SettleStepView::NothingPending,
            SettleStep::Transfer(request) => SettleStepView::Transfer(request@),
        }
    }
}

/// A settlement that did what was asked.
#[derive(Clone, Debug, PartialEq, Eq)]
pub enum SettleOutcome {
    /// The balance was zero: no intent was written and no transfer made.
    NothingPending,
    /// The transfer was confirmed and the amount taken off the balance.
    Settled { intent_id: u64, amount: u64, transfer_id: String },
}

/// `SettleOutcome` as a mathematical value: texts are sequences of characters.
pub enum SettleOutcomeView {
    NothingPending,
    Settled { intent_id: u64, amount: u64, transfer_id: Seq<char> },
}

impl View for SettleOutcome {
    type V = SettleOutcomeView;

    open spec fn view(&self) -> SettleOutcomeView {
        match self {
            SettleOutcome::NothingPending => SettleOutcomeView::NothingPending,
            SettleOutcome::Settled { intent_id, amount, transfer_id } => SettleOutcomeView::Settled {
                intent_id: *intent_id,
                amount: *amount,
                transfer_id: transfer_id@,
            },
        }
    }
}

/// A settlement that did not happen, or whose outcome is unknown.
#[derive(Clone, Debug, PartialEq, Eq)]
pub enum SettleError {
    /// The validator or the intent is not stored. Nothing happened.
    NotFound,
    /// A settlement of the validator is already in progress. Nothing
    /// happened.
    Conflict,
    /// The intent is not waiting for the rail's answer. Nothing happened.
    InvalidTransition,
    /// The intent identifiers are used up. Nothing happened.
    Exhausted,
    /// The rail refused the transfer: the intent is failed and the balance
    /// is as it was.
    RailRejected { intent_id: u64, reason: String },
    /// The rail did not answer: the intent stays submitted and has to be
    /// reconciled before the validator is settled again.
    RailTransient { intent_id: u64 },
}

/// `SettleError` as a mathematical value: texts are sequences of characters.
pub enum SettleErrorView {
    NotFound,
    Conflict,
    InvalidTransition,
    Exhausted,
    RailRejected { intent_id: u64, reason: Seq<char> },
    RailTransient { intent_id: u64 },
}

impl View for SettleError {
    type V = SettleErrorView;

    open spec fn view(&self) -> SettleErrorView {
        match self {
            SettleError::NotFound => SettleErrorView::NotFound,
            SettleError::Conflict => SettleErrorView::Conflict,
            SettleError::InvalidTransition => SettleErrorView::InvalidTransition,
            SettleError::Exhausted => SettleErrorView::Exhausted,
            SettleError::RailRejected { intent_id, reason } => SettleErrorView::RailRejected {
                intent_id: *intent_id,
                reason: reason@,
            },
            SettleError::RailTransient { intent_id } => SettleErrorView::RailTransient {
                intent_id: *intent_id,
            },
        }
    }
}

/// View of a step or the reason there is none.
pub open spec fn step_view(r: Result<SettleStep, SettleError>) -> Result<
    SettleStepView,
    SettleErrorView,
> {
    match r {
        Ok(step) => Ok(step@),
        Err(e) => Err(e@),
    }
}

/// View of the result of a settlement.
pub open spec fn settled_view(r: Result<SettleOutcome, SettleError>) -> Result<
    SettleOutcomeView,
    SettleErrorView,
> {
    match r {
        Ok(outcome) => Ok(outcome@),
        Err(e) => Err(e@),
    }
}

/// What a settlement does once it holds the validator's lock.
#[derive(Clone, Copy, Debug, PartialEq, Eq, Structural)]
pub enum SettleDecision {
    /// Another settlement of the validator has not finished: stand back.
    Conflict,
    /// The balance is zero: commit and report that nothing is pending.
    NothingPending,
    /// Write an intent for the whole balance, then call the rail.
    Capture { amount: u64 },
}

/// The decision for a balance, given whether an intent of the validator is
/// in flight.
pub open spec fn settle_decision(pending_amount: u64, in_flight: bool) -> SettleDecision {
    if in_flight {
        SettleDecision::Conflict
    } else if pending_amount == 0 {
        SettleDecision::NothingPending
    } else {
        SettleDecision::Capture { amount: pending_amount }
    }
}

/// Decides what a settlement does with the balance it found under the lock.
pub fn decide_settlement(pending_amount: u64, in_flight: bool) -> (decision: SettleDecision)
    ensures
        decision == settle_decision(pending_amount, in_flight),
{
    if in_flight {
        SettleDecision::Conflict
    } else if pending_amount == 0 {
        SettleDecision::NothingPending
    } else {
        SettleDecision::Capture { amount: pending_amount }
    }
}

/// What the rail's answer asks of the submitted intent.
#[derive(Clone, Debug, PartialEq, Eq)]
pub enum Resolution {
    /// Mark the intent confirmed with this transfer and take its amount off
    /// the balance.
    Confirm { transfer_id: String },
    /// Mark the intent failed for this reason; the balance stays.
    Fail { reason: String },
    /// Leave the intent submitted: the outcome is unknown.
    LeaveSubmitted,
}

/// `Resolution` as a mathematical value: texts are sequences of characters.
pub enum ResolutionView {
    Confirm { transfer_id: Seq<char> },
    Fail { reason: Seq<char> },
    LeaveSubmitted,
}

impl View for Resolution {
    type V = ResolutionView;

    open spec fn view(&self) -> ResolutionView {
        match self {
            Resolution::Confirm { transfer_id } => ResolutionView::Confirm {
                transfer_id: transfer_id@,
            },
            Resolution::Fail { reason } => ResolutionView::Fail { reason: reason@ },
            Resolution::LeaveSubmitted => ResolutionView::LeaveSubmitted,
        }
    }
}

/// The resolution that an answer of the rail calls for. A timeout is never
/// taken for a failure.
pub open spec fn resolution(outcome: Result<Seq<char>, RailErrorView>) -> ResolutionView {
    match outcome {
        Ok(transfer_id) => ResolutionView::Confirm { transfer_id: transfer_id },
        Err(RailErrorView::Rejected(reason)) => ResolutionView::Fail { reason: reason },
        Err(RailErrorView::Transient) => ResolutionView::LeaveSubmitted,
    }
}

/// Turns the rail's answer into what is to be done with the intent.
pub fn resolve_transfer(outcome: Result<String, RailError>) -> (r: Resolution)
    ensures
        r@ == resolution(outcome_view(outcome)),
{
    match outcome {
        Ok(transfer_id) => Resolution::Confirm { transfer_id },
        Err(RailError::Rejected(reason)) => Resolution::Fail { reason },
        Err(RailError::Transient) => Resolution::LeaveSubmitted,
    }
}

/// The key under which the transfer for an intent is made: the same intent
/// always gives the same key, and no two intents share one.
pub open spec fn idempotency_key(intent_id: u64) -> Seq<char> {
    "settlement-"@ + decimal(intent_id as nat)
}

impl LedgerState {
    /// The first half of a settlement, up to the point where the rail is to
    /// be called: refuse an unknown validator and one that is being settled,
    /// stop at a zero balance, and otherwise leave a `Submitted` intent for
    /// the whole balance behind.
    pub open spec fn begin_settlement(self, validator_id: u128, now: i64) -> (
        LedgerState,
        Result<SettleStepView, SettleErrorView>,
    ) {
        if !self.has_validator(validator_id) {
            (self, Err(SettleErrorView::NotFound))
        } else if self.validator(validator_id).locked {
            (self, Err(SettleErrorView::Conflict))
        } else {
            let validator = self.validator(validator_id);
            match settle_decision(validator.pending_amount, self.has_in_flight(validator_id)) {
                SettleDecision::Conflict => (self, Err(SettleErrorView::Conflict)),
                SettleDecision::NothingPending => (self, Ok(SettleStepView::NothingPending)),
                SettleDecision::Capture { amount } => if self.intents.len() >= u64::MAX {
                    (self, Err(SettleErrorView::Exhausted))
                } else {
                    let intent = IntentView {
                        id: self.intents.len() as u64,
                        validator_id: validator_id,
                        amount: amount,
                        state: IntentState::Submitted,
                        external_transfer_id: None,
                        failure_reason: None,
                        created_at: now,
                    };
                    (
                        LedgerState { intents: self.intents.push(intent), ..self },
                        Ok(
                            SettleStepView::Transfer(
                                TransferRequestView {
                                    intent_id: intent.id,
                                    validator_id: validator_id,
                                    address: validator.address,
                                    amount: amount,
                                    idempotency_key: idempotency_key(intent.id),
                                },
                            ),
                        ),
                    )
                },
            }
        }
    }

    /// The second half of a settlement: what the rail's answer does to a
    /// submitted intent. A confirmation takes the captured amount off the
    /// balance, a refusal fails the intent, and no answer changes nothing.
    pub open spec fn complete_settlement(
        self,
        intent_id: u64,
        outcome: Result<Seq<char>, RailErrorView>,
    ) -> (LedgerState, Result<SettleOutcomeView, SettleErrorView>) {
        if intent_id >= self.intents.len() {
            (self, Err(SettleErrorView::NotFound))
        } else if !(self.intents[intent_id as int].state is Submitted) {
            (self, Err(SettleErrorView::InvalidTransition))
        } else {
            match resolution(outcome) {
                ResolutionView::Confirm { transfer_id } => (
                    self.mark_confirmed(intent_id, transfer_id).0,
                    Ok(
                        SettleOutcomeView::Settled {
                            intent_id: intent_id,
                            amount: self.intents[intent_id as int].amount,
                            transfer_id: transfer_id,
                        },
                    ),
                ),
                ResolutionView::Fail { reason } => (
                    self.mark_failed(intent_id, reason).0,
                    Err(SettleErrorView::RailRejected { intent_id: intent_id, reason: reason }),
                ),
                ResolutionView::LeaveSubmitted => (
                    self,
                    Err(SettleErrorView::RailTransient { intent_id: intent_id }),
                ),
            }
        }
    }

    /// A whole settlement, given what the rail answers if it is called.
    pub open spec fn settle(
        self,
        validator_id: u128,
        now: i64,
        outcome: Result<Seq<char>, RailErrorView>,
    ) -> (LedgerState, Result<SettleOutcomeView, SettleErrorView>) {
        let begun = self.begin_settlement(validator_id, now);
        match begun.1 {
            Err(e) => (self, Err(e)),
            Ok(SettleStepView::NothingPending) => (self, Ok(SettleOutcomeView::NothingPending)),
            Ok(SettleStepView::Transfer(request)) => begun.0.complete_settlement(
                request.intent_id,
                outcome,
            ),
        }
    }

    /// Whether a settlement of the validator gets as far as calling the rail.
    pub open spec fn settlement_calls_rail(self, validator_id: u128, now: i64) -> bool {
        self.begin_settlement(validator_id, now).1 matches Ok(SettleStepView::Transfer(_))
    }

    /// The transfers that a settlement of the validator asks the rail for:
    /// none, or the one for the whole balance under the key of the intent
    /// that is written for it.
    pub open spec fn settlement_requests(self, validator_id: u128, now: i64) -> Seq<
        TransferCallView,
    > {
        match self.begin_settlement(validator_id, now).1 {
            Ok(SettleStepView::Transfer(request)) => seq![
                TransferCallView {
                    address: request.address,
                    amount: request.amount,
                    idempotency_key: request.idempotency_key,
                },
            ],
            _ => Seq::empty(),
        }
    }

    /// The protocol behind `begin_settlement`: take the lock, write the
    /// intent under it, give the lock back, mark the intent submitted.
    pub proof fn lemma_begin_settlement_steps(self, validator_id: u128, now: i64)
        requires
            self.wf(),
            self.settlement_calls_rail(validator_id, now),
        ensures
            ({
                let amount = self.validator(validator_id).pending_amount;
                let locked = self.lock_validator(validator_id);
                let written = locked.0.write_intent(validator_id, amount, now);
                let released = written.0.release_validator(validator_id);
                let submitted = released.0.mark_submitted(self.intents.len() as u64);
                &&& locked.1 is Ok
                &&& written.1 == Ok::<u64, LedgerError>(self.intents.len() as u64)
                &&& released.1 is Ok
                &&& submitted.1 is Ok
                &&& submitted.0 == self.begin_settlement(validator_id, now).0
            }),
            self.begin_settlement(validator_id, now).0.wf(),
    {
        let amount = self.validator(validator_id).pending_amount;
        let v = self.validator_at(validator_id);
        self.lemma_validator_found(validator_id);
        self.lemma_validator_at(v);
        let locked = self.lock_validator(validator_id);
        self.lemma_lock_validator_wf(validator_id);
        self.lemma_validators_kept(locked.0);
        locked.0.lemma_validator_at(v);
        assert(locked.0.has_in_flight(validator_id) == self.has_in_flight(validator_id));
        let written = locked.0.write_intent(validator_id, amount, now);
        locked.0.lemma_write_intent_wf(validator_id, amount, now);
        locked.0.lemma_validators_kept(written.0);
        written.0.lemma_validator_at(v);
        let released = written.0.release_validator(validator_id);
        written.0.lemma_lock_validator_wf(validator_id);
        assert(released.0.validators =~= self.validators);
        let submitted = released.0.mark_submitted(self.intents.len() as u64);
        released.0.lemma_mark_submitted_wf(self.intents.len() as u64);
        assert(submitted.0.intents =~= self.begin_settlement(validator_id, now).0.intents);
    }
}

/// The key under which the transfer for an intent is made.
pub fn make_idempotency_key(intent_id: u64) -> (key: String)
    ensures
        key@ == idempotency_key(intent_id),
{
    let mut key = "settlement-".to_owned();
    push_decimal(&mut key, intent_id);
    key
}

/// Runs a settlement up to the point where the rail is to be called. The
/// validator's row is locked while its balance is read and the intent is
/// written, and the lock is given back before this function returns: the
/// transfer itself is made with no lock held.
pub fn begin_settlement(ledger: &mut Ledger, validator_id: u128, now: i64) -> (r: Result<
    SettleStep,
    SettleError,
>)
    requires
        old(ledger).wf(),
    ensures
        final(ledger).wf(),
        (final(ledger)@, step_view(r)) == old(ledger)@.begin_settlement(validator_id, now),
{
    let ghost before = ledger@;
    let snapshot = match ledger.lock_validator_for_settlement(validator_id) {
        Ok(snapshot) => snapshot,
        Err(LedgerError::NotFound) => {
            return Err(SettleError::NotFound);
        },
        Err(_) => {
            return Err(SettleError::Conflict);
        },
    };
    proof {
        let v = before.validator_at(validator_id);
        before.lemma_validator_found(validator_id);
        before.lemma_validator_at(v);
        before.lemma_validators_kept(ledger@);
        ledger@.lemma_validator_at(v);
        assert(ledger@.release_validator(validator_id).0.validators =~= before.validators);
        assert(ledger@.has_in_flight(validator_id) == before.has_in_flight(validator_id));
    }
    let in_flight = ledger.in_flight_intent(validator_id).is_some();
    let amount = match decide_settlement(snapshot.pending_amount, in_flight) {
        SettleDecision::Conflict => {
            let released = ledger.release_validator_lock(validator_id);
            assert(released is Ok);
            return Err(SettleError::Conflict);
        },
        SettleDecision::NothingPending => {
            let released = ledger.release_validator_lock(validator_id);
            assert(released is Ok);
            return Ok(SettleStep::NothingPending);
        },
        SettleDecision::Capture { amount } => amount,
    };
    let intent_id = match ledger.write_intent(validator_id, amount, now) {
        Ok(intent_id) => intent_id,
        Err(_) => {
            let released = ledger.release_validator_lock(validator_id);
            assert(released is Ok);
            return Err(SettleError::Exhausted);
        },
    };
    proof {
        before.lemma_begin_settlement_steps(validator_id, now);
    }
    let released = ledger.release_validator_lock(validator_id);
    assert(released is Ok);
    let submitted = ledger.mark_intent_submitted(intent_id);
    assert(submitted is Ok);
    Ok(
        SettleStep::Transfer(
            TransferRequest {
                intent_id,
                validator_id,
                address: snapshot.address,
                amount,
                idempotency_key: make_idempotency_key(intent_id),
            },
        ),
    )
}

/// Applies the rail's answer to a submitted intent. A confirmation marks the
/// intent confirmed and takes the amount it captured off the balance; a
/// refusal marks it failed and leaves the balance alone; a transient failure
/// leaves everything as it is, the intent still submitted.
pub fn complete_settlement(
    ledger: &mut Ledger,
    intent_id: u64,
    outcome: Result<String, RailError>,
) -> (r: Result<SettleOutcome, SettleError>)
    requires
        old(ledger).wf(),
    ensures
        final(ledger).wf(),
        (final(ledger)@, settled_view(r)) == old(ledger)@.complete_settlement(
            intent_id,
            outcome_view(outcome),
        ),
{
    let intent = match ledger.intent(intent_id) {
        Some(intent) => intent,
        None => {
            return Err(SettleError::NotFound);
        },
    };
    match intent.state {
        IntentState::Submitted => {},
        _ => {
            return Err(SettleError::InvalidTransition);
        },
    }
    match resolve_transfer(outcome) {
        Resolution::Confirm { transfer_id } => {
            let confirmed = ledger.mark_intent_confirmed(intent_id, transfer_id.as_str());
            assert(confirmed is Ok);
            Ok(SettleOutcome::Settled { intent_id, amount: intent.amount, transfer_id })
        },
        Resolution::Fail { reason } => {
            let failed = ledger.mark_intent_failed(intent_id, reason.as_str());
            assert(failed is Ok);
            Err(SettleError::RailRejected { intent_id, reason })
        },
        Resolution::LeaveSubmitted => Err(SettleError::RailTransient { intent_id }),
    }
}

/// Settles a validator against a rail. The rail is asked for at most one
/// transfer: for the whole balance, under the key of the intent, once the
/// intent is durable and with no lock held. Where the rail is asked, its
/// answer goes on record, and ledger and result are those of
/// `LedgerState::settle` for that answer; where it is not, the rail is left
/// as it is and no answer plays a part.
pub fn settle<R: PaymentRail>(
    ledger: &mut Ledger,
    rail: &mut Audited<R>,
    validator_id: u128,
    now: i64,
) -> (r: Result<SettleOutcome, SettleError>)
    requires
        old(ledger).wf(),
    ensures
        final(ledger).wf(),
        final(rail).requested() == old(rail).requested() + old(ledger)@.settlement_requests(
            validator_id,
            now,
        ),
        final(rail).looked_up() == old(rail).looked_up(),
        final(rail).looks_up() == old(rail).looks_up(),
        old(ledger)@.settlement_calls_rail(validator_id, now) ==> {
            &&& final(rail).answered() == old(rail).answered().push(final(rail).answered().last())
            &&& (final(ledger)@, settled_view(r)) == old(ledger)@.settle(
                validator_id,
                now,
                final(rail).answered().last(),
            )
        },
        !old(ledger)@.settlement_calls_rail(validator_id, now) ==> {
            &&& *final(rail) == *old(rail)
            &&& forall|outcome: Result<Seq<char>, RailErrorView>|
                (final(ledger)@, settled_view(r)) == #[trigger] old(ledger)@.settle(
                    validator_id,
                    now,
                    outcome,
                )
        },
{
    let request = match begin_settlement(ledger, validator_id, now) {
        Ok(SettleStep::Transfer(request)) => request,
        Ok(SettleStep::NothingPending) => {
            assert((ledger@, Ok::<SettleOutcomeView, SettleErrorView>(
                SettleOutcomeView::NothingPending,
            )) == old(ledger)@.settle(validator_id, now, Err(RailErrorView::Transient)));
            assert(rail.requested() + Seq::<TransferCallView>::empty() =~= rail.requested());
            return Ok(SettleOutcome::NothingPending);
        },
        Err(e) => {
            assert((ledger@, Err::<SettleOutcomeView, SettleErrorView>(e@)) == old(
                ledger,
            )@.settle(validator_id, now, Err(RailErrorView::Transient)));
            assert(rail.requested() + Seq::<TransferCallView>::empty() =~= rail.requested());
            return Err(e);
        },
    };
    proof {
        // The intent is durable and submitted, and the row lock is given
        // back, before the rail is asked for anything.
        let waiting = ledger@;
        old(ledger)@.lemma_begin_settlement_steps(validator_id, now);
        old(ledger)@.lemma_validators_kept(waiting);
        assert(!waiting.validator(validator_id).locked);
        assert(waiting.intents[request.intent_id as int].state is Submitted);
    }
    let outcome = rail.transfer(
        request.address.as_str(),
        request.amount,
        request.idempotency_key.as_str(),
    );
    let ghost answer = outcome_view(outcome);
    let r = complete_settlement(ledger, request.intent_id, outcome);
    assert((ledger@, settled_view(r)) == old(ledger)@.settle(validator_id, now, answer));
    assert(rail.answered().last() == answer);
    assert(rail.requested() =~= old(rail).requested() + old(ledger)@.settlement_requests(
        validator_id,
        now,
    ));
    r
}

/// The body of a settlement request: the validator to be paid.
#[derive(Clone, Copy, Debug, PartialEq, Eq, Structural)]
pub struct ValidatorPayout {
    pub validator_id: u128,
}

/// Answers a settlement request: settles the validator that the request
/// names, at `now`, as `settle` does.
pub fn validator_payout_handler<R: PaymentRail>(
    ledger: &mut Ledger,
    rail: &mut Audited<R>,
    payload: &ValidatorPayout,
    now: i64,
) -> (r: Result<SettleOutcome, SettleError>)
    requires
        old(ledger).wf(),
    ensures
        final(ledger).wf(),
        final(rail).requested() == old(rail).requested() + old(ledger)@.settlement_requests(
            payload.validator_id,
            now,
        ),
        final(rail).looked_up() == old(rail).looked_up(),
        final(rail).looks_up() == old(rail).looks_up(),
        old(ledger)@.settlement_calls_rail(payload.validator_id, now) ==> {
            &&& final(rail).answered() == old(rail).answered().push(final(rail).answered().last())
            &&& (final(ledger)@, settled_view(r)) == old(ledger)@.settle(
                payload.validator_id,
                now,
                final(rail).answered().last(),
            )
        },
        !old(ledger)@.settlement_calls_rail(payload.validator_id, now) ==> {
            &&& *final(rail) == *old(rail)
            &&& forall|outcome: Result<Seq<char>, RailErrorView>|
                (final(ledger)@, settled_view(r)) == #[trigger] old(ledger)@.settle(
                    payload.validator_id,
                    now,
                    outcome,
                )
        },
{
    settle(ledger, rail, payload.validator_id, now)
}

/// HTTP status of the answer to a settlement request: 200 when settled or
/// nothing was pending, 404 for an unknown validator, 409 while a settlement
/// is in flight, 502 when the rail failed, 500 otherwise.
pub open spec fn settle_status(r: Result<SettleOutcomeView, SettleErrorView>) -> u16 {
    match r {
        Ok(_) => 200,
        Err(SettleErrorView::NotFound) => 404,
        Err(SettleErrorView::Conflict) => 409,
        Err(SettleErrorView::InvalidTransition) => 409,
        Err(SettleErrorView::RailRejected { .. }) => 502,
        Err(SettleErrorView::RailTransient { .. }) => 502,
        Err(SettleErrorView::Exhausted) => 500,
    }
}

pub fn settle_status_code(r: &Result<SettleOutcome, SettleError>) -> (code: u16)
    ensures
        code == settle_status(settled_view(*r)),
{
    match r {
        Ok(_) => 200,
        Err(SettleError::NotFound) => 404,
        Err(SettleError::Conflict) => 409,
        Err(SettleError::InvalidTransition) => 409,
        Err(SettleError::RailRejected { .. }) => 502,
        Err(SettleError::RailTransient { .. }) => 502,
        Err(SettleError::Exhausted) => 500,
    }
}

impl SettleOutcome {
    /// How the outcome is named in the answer to a settlement request.
    pub fn label(&self) -> (text: &'static str)
        ensures
            text@ == if *self is Settled {
                "settled"@
            } else {
                "nothing_pending"@
            },
    {
        match self {
            SettleOutcome::Settled { .. } => "settled",
            SettleOutcome::NothingPending => "nothing_pending",
        }
    }

    /// The amount that was transferred: zero when nothing was pending.
    pub fn amount(&self) -> (amount: u64)
        ensures
            amount == match *self {
                SettleOutcome::Settled { amount, .. } => amount,
                SettleOutcome::NothingPending => 0,
            },
    {
        match self {
            SettleOutcome::Settled { amount, .. } => *amount,
            SettleOutcome::NothingPending => 0,
        }
    }
}

impl SettleError {
    /// Whether the caller is left not knowing if the transfer happened. Only
    /// then does the validator need reconciling before it is settled again;
    /// after every other error nothing happened.
    pub fn outcome_unknown(&self) -> (unknown: bool)
        ensures
            unknown == (*self is RailTransient),
    {
        match self {
            SettleError::RailTransient { .. } => true,
            _ => false,
        }
    }
}

} // verus!
