//! The ledger as a mathematical value: four tables, the invariant that ties
//! them together, and each operation as a function from state to state.

use vstd::prelude::*;
use crate::records::{IntentState, IntentView, LedgerError, Tick, TickStatus, ValidatorView, WebsiteStatus, WebsiteView, REWARD_PER_TICK};

verus! {

/// Number of ticks in `ticks` reported by `validator_id`.
pub open spec fn ticks_by(ticks: Seq<Tick>, validator_id: u128) -> nat
    decreases ticks.len(),
{
    if ticks.len() == 0 {
        0
    } else {
        ticks_by(ticks.drop_last(), validator_id) + if ticks.last().validator_id == validator_id {
            1nat
        } else {
            0nat
        }
    }
}

/// What one intent adds to the amount paid out to `validator_id`: its amount
/// if it belongs to that validator and is confirmed, nothing otherwise.
pub open spec fn settled_amount(intent: IntentView, validator_id: u128) -> nat {
    if intent.validator_id == validator_id && intent.state is Confirmed {
        intent.amount as nat
    } else {
        0
    }
}

/// Sum of the amounts of the confirmed intents of `validator_id`.
pub open spec fn settled_total(intents: Seq<IntentView>, validator_id: u128) -> nat
    decreases intents.len(),
{
    if intents.len() == 0 {
        0
    } else {
        settled_total(intents.drop_last(), validator_id) + settled_amount(
            intents.last(),
            validator_id,
        )
    }
}

/// Sum of the pending balances of all validators.
pub open spec fn total_pending(validators: Seq<ValidatorView>) -> nat
    decreases validators.len(),
{
    if validators.len() == 0 {
        0
    } else {
        total_pending(validators.drop_last()) + validators.last().pending_amount as nat
    }
}

/// Ticks of one website are ordered by timestamp, ties by identifier: whether
/// `a` comes at or after `b` in that order.
pub open spec fn at_or_after(a: Tick, b: Tick) -> bool {
    a.timestamp > b.timestamp || (a.timestamp == b.timestamp && a.id >= b.id)
}

/// Whether each tick of the sequence comes at or after all ticks before it.
pub open spec fn in_time_order(ticks: Seq<Tick>) -> bool {
    forall|i: int, j: int| 0 <= i < j < ticks.len() ==> at_or_after(ticks[j], ticks[i])
}

/// The four tables of the ledger as sequences, in stored order.
/// The status that the last tick of a history gives, unknown for an empty
/// history.
pub open spec fn status_at_end(history: Seq<Tick>) -> WebsiteStatus {
    if history.len() == 0 {
        WebsiteStatus::Unknown
    } else {
        WebsiteStatus::Known {
            status: history.last().status,
            latency: history.last().latency,
            last_seen: history.last().timestamp,
        }
    }
}

pub struct LedgerState {
    pub websites: Seq<WebsiteView>,
    pub validators: Seq<ValidatorView>,
    pub ticks: Seq<Tick>,
    pub intents: Seq<IntentView>,
}

impl LedgerState {
    pub open spec fn empty() -> LedgerState {
        LedgerState {
            websites: Seq::empty(),
            validators: Seq::empty(),
            ticks: Seq::empty(),
            intents: Seq::empty(),
        }
    }

    pub open spec fn has_website(self, id: u128) -> bool {
        exists|i: int| 0 <= i < self.websites.len() && self.websites[i].id == id
    }

    /// Position of the website `id`; meaningful when `has_website(id)`.
    pub open spec fn website_at(self, id: u128) -> int {
        choose|i: int| 0 <= i < self.websites.len() && self.websites[i].id == id
    }

    pub open spec fn has_validator(self, id: u128) -> bool {
        exists|i: int| 0 <= i < self.validators.len() && self.validators[i].id == id
    }

    /// Position of the validator `id`; meaningful when `has_validator(id)`.
    pub open spec fn validator_at(self, id: u128) -> int {
        choose|i: int| 0 <= i < self.validators.len() && self.validators[i].id == id
    }

    /// The validator `id`; meaningful when `has_validator(id)`.
    pub open spec fn validator(self, id: u128) -> ValidatorView {
        self.validators[self.validator_at(id)]
    }

    /// Pending balance of validator `id`, zero for an unknown validator.
    pub open spec fn pending(self, id: u128) -> nat {
        if self.has_validator(id) {
            self.validator(id).pending_amount as nat
        } else {
            0
        }
    }

    /// Whether some intent of validator `id` has not reached a terminal state.
    pub open spec fn has_in_flight(self, id: u128) -> bool {
        exists|i: int|
            0 <= i < self.intents.len() && self.intents[i].validator_id == id
                && self.intents[i].state.in_flight()
    }

    /// Position of an in-flight intent of validator `id`; meaningful when
    /// `has_in_flight(id)`.
    pub open spec fn in_flight_at(self, id: u128) -> int {
        choose|i: int|
            0 <= i < self.intents.len() && self.intents[i].validator_id == id
                && self.intents[i].state.in_flight()
    }

    /// No two websites and no two validators share an identifier.
    pub open spec fn ids_unique(self) -> bool {
        &&& forall|i: int, j: int|
            0 <= i < j < self.websites.len() ==> self.websites[i].id != self.websites[j].id
        &&& forall|i: int, j: int|
            0 <= i < j < self.validators.len() ==> self.validators[i].id
                != self.validators[j].id
    }

    /// A tick's identifier is its position, and it refers to a stored website
    /// and a stored validator.
    pub open spec fn ticks_consistent(self) -> bool {
        &&& self.ticks.len() <= u64::MAX
        &&& forall|i: int|
            0 <= i < self.ticks.len() ==> {
                &&& (#[trigger] self.ticks[i]).id == i
                &&& self.has_website(self.ticks[i].website_id)
                &&& self.has_validator(self.ticks[i].validator_id)
            }
    }

    /// An intent's identifier is its position; it refers to a stored
    /// validator, has a positive amount, carries a transfer identifier exactly
    /// when confirmed, and while in flight never exceeds the balance it is to
    /// be paid from.
    pub open spec fn intents_consistent(self) -> bool {
        &&& self.intents.len() <= u64::MAX
        &&& forall|i: int|
            0 <= i < self.intents.len() ==> {
                &&& (#[trigger] self.intents[i]).id == i
                &&& self.has_validator(self.intents[i].validator_id)
                &&& self.intents[i].amount > 0
                &&& (self.intents[i].state is Confirmed
                    <==> self.intents[i].external_transfer_id is Some)
                &&& (self.intents[i].state.in_flight() ==> self.intents[i].amount
                    <= self.pending(self.intents[i].validator_id))
            }
    }

    /// At most one intent per validator is in flight.
    pub open spec fn single_in_flight(self) -> bool {
        forall|i: int, j: int|
            0 <= i < j < self.intents.len() && (#[trigger] self.intents[i]).state.in_flight() && (
            #[trigger] self.intents[j]).state.in_flight() ==> self.intents[i].validator_id
                != self.intents[j].validator_id
    }

    /// Every unit ever credited to a validator is either still pending or was
    /// paid out by a confirmed intent.
    pub open spec fn balanced(self) -> bool {
        forall|k: int|
            0 <= k < self.validators.len() ==> (#[trigger] self.validators[k]).pending_amount
                + settled_total(self.intents, self.validators[k].id) == REWARD_PER_TICK
                * ticks_by(self.ticks, self.validators[k].id)
    }

    /// The ledger invariant.
    pub open spec fn wf(self) -> bool {
        &&& self.ids_unique()
        &&& self.ticks_consistent()
        &&& self.intents_consistent()
        &&& self.single_in_flight()
        &&& self.balanced()
    }

    /// The state with the pending balance of the validator at `pos` replaced.
    pub open spec fn with_pending(self, pos: int, amount: u64) -> LedgerState {
        LedgerState {
            validators: self.validators.update(
                pos,
                ValidatorView { pending_amount: amount, ..self.validators[pos] },
            ),
            ..self
        }
    }

    /// The state with the lock flag of the validator at `pos` replaced.
    pub open spec fn with_locked(self, pos: int, locked: bool) -> LedgerState {
        LedgerState {
            validators: self.validators.update(
                pos,
                ValidatorView { locked: locked, ..self.validators[pos] },
            ),
            ..self
        }
    }

    /// Stores a website under a fresh identifier.
    pub open spec fn add_website(
        self,
        id: u128,
        url: Seq<char>,
        user_id: u128,
        disabled: bool,
    ) -> (LedgerState, Result<(), LedgerError>) {
        if self.has_website(id) {
            (self, Err(LedgerError::AlreadyExists))
        } else {
            (
                LedgerState {
                    websites: self.websites.push(
                        WebsiteView { id: id, url: url, user_id: user_id, disabled: disabled },
                    ),
                    ..self
                },
                Ok(()),
            )
        }
    }

    /// Soft-deletes the website `id` if `user_id` owns it.
    pub open spec fn disable_website(self, id: u128, user_id: u128) -> (
        LedgerState,
        Result<(), LedgerError>,
    ) {
        if !self.has_website(id) || self.websites[self.website_at(id)].user_id != user_id {
            (self, Err(LedgerError::NotFound))
        } else {
            let w = self.website_at(id);
            (
                LedgerState {
                    websites: self.websites.update(
                        w,
                        WebsiteView { disabled: true, ..self.websites[w] },
                    ),
                    ..self
                },
                Ok(()),
            )
        }
    }

    /// Stores a validator with an empty balance under a fresh identifier.
    pub open spec fn register_validator(self, id: u128, address: Seq<char>) -> (
        LedgerState,
        Result<(), LedgerError>,
    ) {
        if self.has_validator(id) {
            (self, Err(LedgerError::AlreadyExists))
        } else {
            (
                LedgerState {
                    validators: self.validators.push(
                        ValidatorView {
                            id: id,
                            address: address,
                            pending_amount: 0,
                            locked: false,
                        },
                    ),
                    ..self
                },
                Ok(()),
            )
        }
    }

    /// Whether a tick for this website by this validator is accepted: both are
    /// stored and the website is not disabled.
    pub open spec fn accepts_tick(self, website_id: u128, validator_id: u128) -> bool {
        &&& self.has_website(website_id)
        &&& !self.websites[self.website_at(website_id)].disabled
        &&& self.has_validator(validator_id)
    }

    /// Appends a tick and credits the reporting validator, as one step.
    pub open spec fn record_tick(
        self,
        website_id: u128,
        validator_id: u128,
        status: TickStatus,
        latency: u64,
        timestamp: i64,
    ) -> (LedgerState, Result<u64, LedgerError>) {
        if !self.accepts_tick(website_id, validator_id) {
            (self, Err(LedgerError::NotFound))
        } else if self.ticks.len() >= u64::MAX || self.pending(validator_id) + REWARD_PER_TICK
            > u64::MAX {
            (self, Err(LedgerError::Exhausted))
        } else {
            let v = self.validator_at(validator_id);
            let tick = Tick {
                id: self.ticks.len() as u64,
                website_id: website_id,
                validator_id: validator_id,
                timestamp: timestamp,
                status: status,
                latency: latency,
            };
            (
                LedgerState {
                    ticks: self.ticks.push(tick),
                    ..self.with_pending(
                        v,
                        (self.validators[v].pending_amount + REWARD_PER_TICK) as u64,
                    )
                },
                Ok(tick.id),
            )
        }
    }

    /// Takes the settlement lock of validator `id`.
    pub open spec fn lock_validator(self, id: u128) -> (LedgerState, Result<(), LedgerError>) {
        if !self.has_validator(id) {
            (self, Err(LedgerError::NotFound))
        } else if self.validator(id).locked {
            (self, Err(LedgerError::Conflict))
        } else {
            (self.with_locked(self.validator_at(id), true), Ok(()))
        }
    }

    /// Gives the settlement lock of validator `id` back.
    pub open spec fn release_validator(self, id: u128) -> (LedgerState, Result<(), LedgerError>) {
        if !self.has_validator(id) {
            (self, Err(LedgerError::NotFound))
        } else if !self.validator(id).locked {
            (self, Err(LedgerError::NotLocked))
        } else {
            (self.with_locked(self.validator_at(id), false), Ok(()))
        }
    }

    /// Appends a `Created` intent for `amount` under the validator's lock.
    pub open spec fn write_intent(self, id: u128, amount: u64, created_at: i64) -> (
        LedgerState,
        Result<u64, LedgerError>,
    ) {
        if !self.has_validator(id) {
            (self, Err(LedgerError::NotFound))
        } else if !self.validator(id).locked {
            (self, Err(LedgerError::NotLocked))
        } else if self.has_in_flight(id) {
            (self, Err(LedgerError::Conflict))
        } else if amount == 0 || amount > self.validator(id).pending_amount {
            (self, Err(LedgerError::InvalidAmount))
        } else if self.intents.len() >= u64::MAX {
            (self, Err(LedgerError::Exhausted))
        } else {
            let intent = IntentView {
                id: self.intents.len() as u64,
                validator_id: id,
                amount: amount,
                state: IntentState::Created,
                external_transfer_id: None,
                failure_reason: None,
                created_at: created_at,
            };
            (LedgerState { intents: self.intents.push(intent), ..self }, Ok(intent.id))
        }
    }

    /// `Created` to `Submitted`.
    pub open spec fn mark_submitted(self, intent_id: u64) -> (
        LedgerState,
        Result<(), LedgerError>,
    ) {
        if intent_id >= self.intents.len() {
            (self, Err(LedgerError::NotFound))
        } else if !(self.intents[intent_id as int].state is Created) {
            (self, Err(LedgerError::InvalidTransition))
        } else {
            let i = intent_id as int;
            (
                LedgerState {
                    intents: self.intents.update(
                        i,
                        IntentView { state: IntentState::Submitted, ..self.intents[i] },
                    ),
                    ..self
                },
                Ok(()),
            )
        }
    }

    /// `Submitted` to `Confirmed`: records the transfer and takes the intent's
    /// captured amount, not the live balance, off the validator's balance.
    pub open spec fn mark_confirmed(self, intent_id: u64, transfer_id: Seq<char>) -> (
        LedgerState,
        Result<(), LedgerError>,
    ) {
        if intent_id >= self.intents.len() {
            (self, Err(LedgerError::NotFound))
        } else if !(self.intents[intent_id as int].state is Submitted) {
            (self, Err(LedgerError::InvalidTransition))
        } else {
            let i = intent_id as int;
            let v = self.validator_at(self.intents[i].validator_id);
            (
                LedgerState {
                    intents: self.intents.update(
                        i,
                        IntentView {
                            state: IntentState::Confirmed,
                            external_transfer_id: Some(transfer_id),
                            ..self.intents[i]
                        },
                    ),
                    ..self.with_pending(
                        v,
                        (self.validators[v].pending_amount - self.intents[i].amount) as u64,
                    )
                },
                Ok(()),
            )
        }
    }

    /// `Submitted` to `Failed`: records the reason and leaves every balance
    /// as it is.
    pub open spec fn mark_failed(self, intent_id: u64, reason: Seq<char>) -> (
        LedgerState,
        Result<(), LedgerError>,
    ) {
        if intent_id >= self.intents.len() {
            (self, Err(LedgerError::NotFound))
        } else if !(self.intents[intent_id as int].state is Submitted) {
            (self, Err(LedgerError::InvalidTransition))
        } else {
            let i = intent_id as int;
            (
                LedgerState {
                    intents: self.intents.update(
                        i,
                        IntentView {
                            state: IntentState::Failed,
                            failure_reason: Some(reason),
                            ..self.intents[i]
                        },
                    ),
                    ..self
                },
                Ok(()),
            )
        }
    }

    /// The website `id`; meaningful when `has_website(id)`.
    pub open spec fn website(self, id: u128) -> WebsiteView {
        self.websites[self.website_at(id)]
    }

    /// The website `id` as its owner `user_id` sees it: absent when it is not
    /// stored, belongs to someone else or is disabled.
    pub open spec fn website_for(self, id: u128, user_id: u128) -> Option<WebsiteView> {
        if self.has_website(id) && self.website(id).user_id == user_id && !self.website(
            id,
        ).disabled {
            Some(self.website(id))
        } else {
            None
        }
    }

    /// The websites of `user_id` that are not disabled, in stored order.
    pub open spec fn websites_of(self, user_id: u128) -> Seq<WebsiteView> {
        self.websites.filter(|w: WebsiteView| w.user_id == user_id && !w.disabled)
    }

    /// The ticks recorded for website `id`, in insertion order.
    pub open spec fn ticks_of(self, id: u128) -> Seq<Tick> {
        self.ticks.filter(|t: Tick| t.website_id == id)
    }

    /// Whether `history` holds the ticks recorded for website `id`, each
    /// once, ordered by timestamp and, among equal timestamps, by identifier.
    pub open spec fn is_history_of(self, id: u128, history: Seq<Tick>) -> bool {
        in_time_order(history) && history.to_multiset() == self.ticks_of(id).to_multiset()
    }

    pub open spec fn has_tick_for(self, website_id: u128) -> bool {
        exists|i: int| 0 <= i < self.ticks.len() && self.ticks[i].website_id == website_id
    }

    /// The tick at `i` is for `website_id` and no tick for it comes later.
    pub open spec fn is_latest_for(self, website_id: u128, i: int) -> bool {
        &&& 0 <= i < self.ticks.len()
        &&& self.ticks[i].website_id == website_id
        &&& forall|j: int|
            0 <= j < self.ticks.len() && (#[trigger] self.ticks[j]).website_id == website_id
                ==> at_or_after(self.ticks[i], self.ticks[j])
    }

    /// Position of the most recent tick of `website_id`; meaningful when
    /// `has_tick_for(website_id)`.
    pub open spec fn latest_for(self, website_id: u128) -> int {
        choose|i: int| self.is_latest_for(website_id, i)
    }

    /// Status of a website: that of its most recent tick, `Unknown` without
    /// one.
    pub open spec fn current_status(self, website_id: u128) -> WebsiteStatus {
        if self.has_tick_for(website_id) {
            let t = self.ticks[self.latest_for(website_id)];
            WebsiteStatus::Known { status: t.status, latency: t.latency, last_seen: t.timestamp }
        } else {
            WebsiteStatus::Unknown
        }
    }

    /// Identifier of the in-flight intent of validator `id`, if there is one.
    pub open spec fn in_flight_intent(self, id: u128) -> Option<u64> {
        if self.has_in_flight(id) {
            Some(self.in_flight_at(id) as u64)
        } else {
            None
        }
    }
}

/// One operation of the ledger store with its arguments.
pub enum LedgerOp {
    AddWebsite { id: u128, url: Seq<char>, user_id: u128, disabled: bool },
    DisableWebsite { id: u128, user_id: u128 },
    RegisterValidator { id: u128, address: Seq<char> },
    RecordTick {
        website_id: u128,
        validator_id: u128,
        status: TickStatus,
        latency: u64,
        timestamp: i64,
    },
    LockValidator { id: u128 },
    ReleaseValidator { id: u128 },
    WriteIntent { validator_id: u128, amount: u64, created_at: i64 },
    MarkSubmitted { intent_id: u64 },
    MarkConfirmed { intent_id: u64, transfer_id: Seq<char> },
    MarkFailed { intent_id: u64, reason: Seq<char> },
}

impl LedgerState {
    /// The ledger after one operation, whether it succeeds or is refused.
    pub open spec fn apply(self, op: LedgerOp) -> LedgerState {
        match op {
            LedgerOp::AddWebsite { id, url, user_id, disabled } => self.add_website(
                id,
                url,
                user_id,
                disabled,
            ).0,
            LedgerOp::DisableWebsite { id, user_id } => self.disable_website(id, user_id).0,
            LedgerOp::RegisterValidator { id, address } => self.register_validator(id, address).0,
            LedgerOp::RecordTick {
                website_id,
                validator_id,
                status,
                latency,
                timestamp,
            } => self.record_tick(website_id, validator_id, status, latency, timestamp).0,
            LedgerOp::LockValidator { id } => self.lock_validator(id).0,
            LedgerOp::ReleaseValidator { id } => self.release_validator(id).0,
            LedgerOp::WriteIntent { validator_id, amount, created_at } => self.write_intent(
                validator_id,
                amount,
                created_at,
            ).0,
            LedgerOp::MarkSubmitted { intent_id } => self.mark_submitted(intent_id).0,
            LedgerOp::MarkConfirmed { intent_id, transfer_id } => self.mark_confirmed(
                intent_id,
                transfer_id,
            ).0,
            LedgerOp::MarkFailed { intent_id, reason } => self.mark_failed(intent_id, reason).0,
        }
    }

    /// The ledger after a sequence of operations, applied in turn.
    pub open spec fn run(self, ops: Seq<LedgerOp>) -> LedgerState
        decreases ops.len(),
    {
        if ops.len() == 0 {
            self
        } else {
            self.run(ops.drop_last()).apply(ops.last())
        }
    }
}

} // verus!
