//! The records kept by the ledger and their mathematical views.

use vstd::prelude::*;

verus! {

/// Credit, in the payment rail's smallest unit, earned by one recorded tick.
pub const REWARD_PER_TICK: u64 = 100;

/// Outcome of one liveness probe.
#[derive(Clone, Copy, Debug, PartialEq, Eq, Structural)]
pub enum TickStatus {
    Up,
    Down,
}

/// One observation of a website by a validator. Ticks are append-only; the
/// identifier is the position at which the tick was inserted.
#[derive(Clone, Copy, Debug, PartialEq, Eq, Structural)]
pub struct Tick {
    pub id: u64,
    pub website_id: u128,
    pub validator_id: u128,
    pub timestamp: i64,
    pub status: TickStatus,
    pub latency: u64,
}

/// A monitored website as stored by the ledger.
#[derive(Clone, Debug, PartialEq, Eq)]
pub struct WebsiteRecord {
    pub id: u128,
    pub url: String,
    pub user_id: u128,
    pub disabled: bool,
}

/// `WebsiteRecord` as a mathematical value: texts are sequences of characters.
pub struct WebsiteView {
    pub id: u128,
    pub url: Seq<char>,
    pub user_id: u128,
    pub disabled: bool,
}

impl View for WebsiteRecord {
    type V = WebsiteView;

    open spec fn view(&self) -> WebsiteView {
        WebsiteView { id: self.id, url: self.url@, user_id: self.user_id, disabled: self.disabled }
    }
}

/// A validator row: payout address, accrued balance, and whether a settlement
/// transaction currently holds the row lock.
#[derive(Clone, Debug, PartialEq, Eq)]
pub struct Validator {
    pub id: u128,
    pub address: String,
    pub pending_amount: u64,
    pub locked: bool,
}

/// `Validator` as a mathematical value: texts are sequences of characters.
pub struct ValidatorView {
    pub id: u128,
    pub address: Seq<char>,
    pub pending_amount: u64,
    pub locked: bool,
}

impl View for Validator {
    type V = ValidatorView;

    open spec fn view(&self) -> ValidatorView {
        ValidatorView {
            id: self.id,
            address: self.address@,
            pending_amount: self.pending_amount,
            locked: self.locked,
        }
    }
}

/// What a settlement transaction sees of a validator once it holds the lock.
#[derive(Clone, Debug, PartialEq, Eq)]
pub struct ValidatorSnapshot {
    pub validator_id: u128,
    pub address: String,
    pub pending_amount: u64,
}

/// Lifecycle of a settlement attempt. `Created` is initial; `Confirmed` and
/// `Failed` are terminal.
#[derive(Clone, Copy, Debug, PartialEq, Eq, Structural)]
pub enum IntentState {
    Created,
    Submitted,
    Confirmed,
    Failed,
}

impl IntentState {
    /// An intent is in flight until it reaches a terminal state.
    pub open spec fn in_flight(self) -> bool {
        self is Created || self is Submitted
    }

    pub fn is_in_flight(&self) -> (r: bool)
        ensures
            r == self.in_flight(),
    {
        match self {
            IntentState::Created => true,
            IntentState::Submitted => true,
            IntentState::Confirmed => false,
            IntentState::Failed => false,
        }
    }

    pub fn is_terminal(&self) -> (r: bool)
        ensures
            r == !self.in_flight(),
    {
        !self.is_in_flight()
    }
}

/// The durable, write-ahead record of one settlement attempt.
#[derive(Clone, Debug, PartialEq, Eq)]
pub struct SettlementIntent {
    pub id: u64,
    pub validator_id: u128,
    pub amount: u64,
    pub state: IntentState,
    pub external_transfer_id: Option<String>,
    pub failure_reason: Option<String>,
    pub created_at: i64,
}

/// `SettlementIntent` as a mathematical value: texts are sequences of characters.
pub struct IntentView {
    pub id: u64,
    pub validator_id: u128,
    pub amount: u64,
    pub state: IntentState,
    pub external_transfer_id: Option<Seq<char>>,
    pub failure_reason: Option<Seq<char>>,
    pub created_at: i64,
}

/// View of an optional string.
pub open spec fn opt_text(s: Option<String>) -> Option<Seq<char>> {
    match s {
        Some(t) => Some(t@),
        None => None,
    }
}

impl View for SettlementIntent {
    type V = IntentView;

    open spec fn view(&self) -> IntentView {
        IntentView {
            id: self.id,
            validator_id: self.validator_id,
            amount: self.amount,
            state: self.state,
            external_transfer_id: opt_text(self.external_transfer_id),
            failure_reason: opt_text(self.failure_reason),
            created_at: self.created_at,
        }
    }
}

/// Why a ledger operation was refused. A refused operation changes nothing.
#[derive(Clone, Copy, Debug, PartialEq, Eq, Structural)]
pub enum LedgerError {
    /// A referenced website, validator or intent is missing, or the website
    /// is disabled.
    NotFound,
    /// A settlement of the same validator is already in progress.
    Conflict,
    /// A website or validator with that identifier is already stored.
    AlreadyExists,
    /// The amount is zero or exceeds the validator's pending balance.
    InvalidAmount,
    /// The intent is not in the state that the transition starts from.
    InvalidTransition,
    /// The operation needs the validator's settlement lock, which is not held.
    NotLocked,
    /// A balance or an identifier would leave the range of its integer type.
    Exhausted,
}

/// Derived status of a website: that of its most recent tick.
#[derive(Clone, Copy, Debug, PartialEq, Eq, Structural)]
pub enum WebsiteStatus {
    /// No tick has been recorded for the website.
    Unknown,
    Known { status: TickStatus, latency: u64, last_seen: i64 },
}

} // verus!
