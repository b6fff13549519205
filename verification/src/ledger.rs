//! The ledger store: websites, validators, ticks and settlement intents held
//! in memory, each operation one atomic step.

use vstd::prelude::*;
use crate::records::{
    opt_text, IntentState, LedgerError, SettlementIntent, Tick, TickStatus, Validator,
    ValidatorSnapshot, ValidatorView, WebsiteRecord, WebsiteStatus, WebsiteView,
};
use crate::ingest::{admit_tick, credit_tick};
use crate::state::{at_or_after, in_time_order, LedgerState};

verus! {

/// The ledger store. Its tables are private: a ledger is made empty and
/// changed by its operations only, each of which keeps the invariant `wf`.
pub struct Ledger {
    websites: Vec<WebsiteRecord>,
    validators: Vec<Validator>,
    ticks: Vec<Tick>,
    intents: Vec<SettlementIntent>,
}

impl View for Ledger {
    type V = LedgerState;

    closed spec fn view(&self) -> LedgerState {
        LedgerState {
            websites: self.websites@.map_values(|w: WebsiteRecord| w@),
            validators: self.validators@.map_values(|v: Validator| v@),
            ticks: self.ticks@,
            intents: self.intents@.map_values(|i: SettlementIntent| i@),
        }
    }
}

impl Ledger {
    /// The ledger invariant holds of the stored tables.
    pub open spec fn wf(&self) -> bool {
        self@.wf()
    }

    /// An empty ledger.
    pub fn new() -> (ledger: Ledger)
        ensures
            ledger@ == LedgerState::empty(),
            ledger.wf(),
    {
        let ledger = Ledger {
            websites: Vec::new(),
            validators: Vec::new(),
            ticks: Vec::new(),
            intents: Vec::new(),
        };
        assert(ledger@.websites =~= Seq::empty());
        assert(ledger@.validators =~= Seq::empty());
        assert(ledger@.intents =~= Seq::empty());
        ledger
    }

    fn find_website(&self, id: u128) -> (found: Option<usize>)
        ensures
            found matches Some(i) ==> i < self@.websites.len() && self@.websites[i as int].id == id,
            found is None ==> !self@.has_website(id),
            self@.ids_unique() ==> (found matches Some(i) ==> self@.has_website(id)
                && self@.website_at(id) == i),
    {
        let mut i: usize = 0;
        while i < self.websites.len()
            invariant
                i <= self.websites.len(),
                forall|k: int| 0 <= k < i ==> self@.websites[k].id != id,
            decreases self.websites.len() - i,
        {
            if self.websites[i].id == id {
                proof {
                    if self@.ids_unique() {
                        self@.lemma_website_at(i as int);
                    }
                }
                return Some(i);
            }
            i = i + 1;
        }
        None
    }

    fn find_validator(&self, id: u128) -> (found: Option<usize>)
        ensures
            found matches Some(i) ==> i < self@.validators.len() && self@.validators[i as int].id
                == id,
            found is None ==> !self@.has_validator(id),
            self@.ids_unique() ==> (found matches Some(i) ==> self@.has_validator(id)
                && self@.validator_at(id) == i),
    {
        let mut i: usize = 0;
        while i < self.validators.len()
            invariant
                i <= self.validators.len(),
                forall|k: int| 0 <= k < i ==> self@.validators[k].id != id,
            decreases self.validators.len() - i,
        {
            if self.validators[i].id == id {
                proof {
                    if self@.ids_unique() {
                        self@.lemma_validator_at(i as int);
                    }
                }
                return Some(i);
            }
            i = i + 1;
        }
        None
    }

    /// Stores a website under the identifier `id`, unless one is stored
    /// under it already.
    pub fn create_website(&mut self, id: u128, url: &str, user_id: u128, disabled: bool) -> (r:
        Result<(), LedgerError>)
        requires
            old(self).wf(),
        ensures
            final(self).wf(),
            (final(self)@, r) == old(self)@.add_website(id, url@, user_id, disabled),
    {
        proof {
            self@.lemma_add_website_wf(id, url@, user_id, disabled);
        }
        match self.find_website(id) {
            Some(_) => Err(LedgerError::AlreadyExists),
            None => {
                self.websites.push(
                    WebsiteRecord { id, url: url.to_owned(), user_id, disabled },
                );
                assert(final(self)@.websites =~= old(self)@.websites.push(
                    WebsiteView { id: id, url: url@, user_id: user_id, disabled: disabled },
                ));
                Ok(())
            },
        }
    }

    /// Soft-deletes the website `id` if `user_id` owns it. Disabling a
    /// website twice succeeds twice.
    pub fn disable_website(&mut self, id: u128, user_id: u128) -> (r: Result<(), LedgerError>)
        requires
            old(self).wf(),
        ensures
            final(self).wf(),
            (final(self)@, r) == old(self)@.disable_website(id, user_id),
    {
        proof {
            self@.lemma_disable_website_wf(id, user_id);
        }
        match self.find_website(id) {
            Some(w) => {
                if self.websites[w].user_id != user_id {
                    return Err(LedgerError::NotFound);
                }
                self.websites[w].disabled = true;
                assert(final(self)@.websites =~= old(self)@.websites.update(
                    w as int,
                    WebsiteView { disabled: true, ..old(self)@.websites[w as int] },
                ));
                Ok(())
            },
            None => Err(LedgerError::NotFound),
        }
    }

    /// Stores a validator with an empty balance under the identifier `id`,
    /// unless one is stored under it already.
    pub fn register_validator(&mut self, id: u128, address: &str) -> (r: Result<(), LedgerError>)
        requires
            old(self).wf(),
        ensures
            final(self).wf(),
            (final(self)@, r) == old(self)@.register_validator(id, address@),
    {
        proof {
            self@.lemma_register_validator_wf(id, address@);
        }
        match self.find_validator(id) {
            Some(_) => Err(LedgerError::AlreadyExists),
            None => {
                self.validators.push(
                    Validator { id, address: address.to_owned(), pending_amount: 0, locked: false },
                );
                assert(final(self)@.validators =~= old(self)@.validators.push(
                    ValidatorView {
                        id: id,
                        address: address@,
                        pending_amount: 0,
                        locked: false,
                    },
                ));
                Ok(())
            },
        }
    }

    /// Appends a tick and, in the same step, credits the reporting validator
    /// with the reward for one tick. Refused with `NotFound` when the website
    /// or the validator is not stored or the website is disabled, and with
    /// `Exhausted` when the tick identifier or the balance would overflow.
    pub fn record_tick(
        &mut self,
        website_id: u128,
        validator_id: u128,
        status: TickStatus,
        latency: u64,
        timestamp: i64,
    ) -> (r: Result<u64, LedgerError>)
        requires
            old(self).wf(),
        ensures
            final(self).wf(),
            (final(self)@, r) == old(self)@.record_tick(
                website_id,
                validator_id,
                status,
                latency,
                timestamp,
            ),
    {
        proof {
            self@.lemma_record_tick_wf(website_id, validator_id, status, latency, timestamp);
        }
        let website_disabled = match self.find_website(website_id) {
            Some(w) => Some(self.websites[w].disabled),
            None => None,
        };
        let found = self.find_validator(validator_id);
        match admit_tick(website_disabled, found.is_some()) {
            Ok(()) => {},
            Err(e) => {
                return Err(e);
            },
        }
        let v = match found {
            Some(v) => v,
            None => {
                return Err(LedgerError::NotFound);
            },
        };
        let credited = match credit_tick(self.validators[v].pending_amount) {
            Some(credited) => credited,
            None => {
                return Err(LedgerError::Exhausted);
            },
        };
        if self.ticks.len() as u64 >= u64::MAX {
            return Err(LedgerError::Exhausted);
        }
        let id = self.ticks.len() as u64;
        self.ticks.push(Tick { id, website_id, validator_id, timestamp, status, latency });
        self.validators[v].pending_amount = credited;
        assert(final(self)@.validators =~= old(self)@.with_pending(v as int, credited).validators);
        Ok(id)
    }

    /// Derived status of a website: status, latency and timestamp of its
    /// most recent tick, by timestamp and then by identifier.
    pub fn current_status(&self, website_id: u128) -> (status: WebsiteStatus)
        requires
            self.wf(),
        ensures
            status == self@.current_status(website_id),
    {
        let mut best: Option<usize> = None;
        let mut n: usize = 0;
        while n < self.ticks.len()
            invariant
                n <= self.ticks.len(),
                best is None ==> forall|j: int| 0 <= j < n ==> self@.ticks[j].website_id != website_id,
                best matches Some(b) ==> {
                    &&& b < n
                    &&& self@.ticks[b as int].website_id == website_id
                    &&& forall|j: int|
                        0 <= j < n && (#[trigger] self@.ticks[j]).website_id == website_id
                            ==> at_or_after(self@.ticks[b as int], self@.ticks[j])
                },
            decreases self.ticks.len() - n,
        {
            let tick = self.ticks[n];
            if tick.website_id == website_id {
                match best {
                    None => {
                        best = Some(n);
                    },
                    Some(b) => {
                        let current = self.ticks[b];
                        if tick.timestamp > current.timestamp || (tick.timestamp
                            == current.timestamp && tick.id >= current.id) {
                            best = Some(n);
                        }
                    },
                }
            }
            n = n + 1;
        }
        match best {
            None => WebsiteStatus::Unknown,
            Some(b) => {
                proof {
                    self@.lemma_latest_unique(website_id, b as int);
                }
                let tick = self.ticks[b];
                WebsiteStatus::Known {
                    status: tick.status,
                    latency: tick.latency,
                    last_seen: tick.timestamp,
                }
            },
        }
    }

    /// The ticks recorded for a website, in insertion order.
    pub fn ticks_of(&self, website_id: u128) -> (ticks: Vec<Tick>)
        ensures
            ticks@ == self@.ticks_of(website_id),
    {
        let ghost pred = |t: Tick| t.website_id == website_id;
        let mut out: Vec<Tick> = Vec::new();
        let mut n: usize = 0;
        proof {
            reveal(Seq::filter);
            assert(self@.ticks.take(0) =~= Seq::<Tick>::empty());
        }
        while n < self.ticks.len()
            invariant
                n <= self.ticks.len(),
                pred == (|t: Tick| t.website_id == website_id),
                out@ == self@.ticks.take(n as int).filter(pred),
            decreases self.ticks.len() - n,
        {
            let tick = self.ticks[n];
            proof {
                reveal(Seq::filter);
                assert(self@.ticks.take(n + 1).drop_last() =~= self@.ticks.take(n as int));
            }
            if tick.website_id == website_id {
                out.push(tick);
            }
            n = n + 1;
        }
        assert(self@.ticks.take(n as int) =~= self@.ticks);
        out
    }

    /// The ticks recorded for a website, ordered by timestamp and, among
    /// equal timestamps, by identifier.
    pub fn history(&self, website_id: u128) -> (ticks: Vec<Tick>)
        ensures
            self@.is_history_of(website_id, ticks@),
    {
        let recorded = self.ticks_of(website_id);
        let mut out: Vec<Tick> = Vec::new();
        let mut n: usize = 0;
        assert(recorded@.take(0) =~= Seq::<Tick>::empty());
        while n < recorded.len()
            invariant
                n <= recorded.len(),
                in_time_order(out@),
                out@.to_multiset() == recorded@.take(n as int).to_multiset(),
            decreases recorded.len() - n,
        {
            let tick = recorded[n];
            let mut at: usize = out.len();
            while at > 0 && !(tick.timestamp > out[at - 1].timestamp || (tick.timestamp == out[at
                - 1].timestamp && tick.id >= out[at - 1].id))
                invariant
                    at <= out.len(),
                    forall|k: int| at <= k < out.len() ==> at_or_after(out@[k], tick),
                decreases at,
            {
                at = at - 1;
            }
            let ghost before = out@;
            out.insert(at, tick);
            proof {
                vstd::seq_lib::to_multiset_insert(before, at as int, tick);
                vstd::seq_lib::to_multiset_build(recorded@.take(n as int), tick);
                assert(recorded@.take(n + 1) =~= recorded@.take(n as int).push(tick));
                assert forall|i: int, j: int| 0 <= i < j < out@.len() implies at_or_after(
                    out@[j],
                    out@[i],
                ) by {
                    if j < at {
                        assert(out@[i] == before[i] && out@[j] == before[j]);
                    } else if j == at {
                        assert(out@[i] == before[i]);
                        if at > 0 {
                            assert(at_or_after(tick, before[at - 1]));
                            if i < at - 1 {
                                assert(at_or_after(before[at - 1], before[i]));
                            }
                        }
                    } else {
                        assert(out@[j] == before[j - 1]);
                        if i < at {
                            assert(out@[i] == before[i]);
                        } else if i == at {
                        } else {
                            assert(out@[i] == before[i - 1]);
                        }
                    }
                }
            }
            n = n + 1;
        }
        assert(recorded@.take(n as int) =~= recorded@);
        out
    }

    /// The website `id` as its owner `user_id` sees it: absent when it is
    /// not stored, belongs to someone else or is disabled.
    pub fn website_for(&self, id: u128, user_id: u128) -> (found: Option<WebsiteRecord>)
        requires
            self.wf(),
        ensures
            match found {
                Some(w) => self@.website_for(id, user_id) == Some(w@),
                None => self@.website_for(id, user_id) is None,
            },
    {
        match self.find_website(id) {
            Some(w) => {
                if self.websites[w].user_id == user_id && !self.websites[w].disabled {
                    Some(copy_website(&self.websites[w]))
                } else {
                    None
                }
            },
            None => None,
        }
    }

    /// The websites of `user_id` that are not disabled, in stored order.
    pub fn websites_of(&self, user_id: u128) -> (found: Vec<WebsiteRecord>)
        ensures
            found@.map_values(|w: WebsiteRecord| w@) == self@.websites_of(user_id),
    {
        let ghost pred = |w: WebsiteView| w.user_id == user_id && !w.disabled;
        let mut out: Vec<WebsiteRecord> = Vec::new();
        let mut n: usize = 0;
        proof {
            reveal(Seq::filter);
            assert(self@.websites.take(0) =~= Seq::<WebsiteView>::empty());
            assert(out@.map_values(|w: WebsiteRecord| w@) =~= Seq::<WebsiteView>::empty());
        }
        while n < self.websites.len()
            invariant
                n <= self.websites.len(),
                pred == (|w: WebsiteView| w.user_id == user_id && !w.disabled),
                out@.map_values(|w: WebsiteRecord| w@) == self@.websites.take(n as int).filter(
                    pred,
                ),
            decreases self.websites.len() - n,
        {
            proof {
                reveal(Seq::filter);
                assert(self@.websites.take(n + 1).drop_last() =~= self@.websites.take(n as int));
            }
            if self.websites[n].user_id == user_id && !self.websites[n].disabled {
                let ghost before = out@.map_values(|w: WebsiteRecord| w@);
                out.push(copy_website(&self.websites[n]));
                assert(out@.map_values(|w: WebsiteRecord| w@) =~= before.push(
                    self@.websites[n as int],
                ));
            }
            n = n + 1;
        }
        assert(self@.websites.take(n as int) =~= self@.websites);
        out
    }

    /// Pending balance of a validator, `None` for an unknown validator.
    pub fn pending_amount(&self, validator_id: u128) -> (amount: Option<u64>)
        requires
            self.wf(),
        ensures
            amount is Some == self@.has_validator(validator_id),
            amount matches Some(a) ==> a == self@.pending(validator_id),
    {
        match self.find_validator(validator_id) {
            Some(v) => Some(self.validators[v].pending_amount),
            None => None,
        }
    }

    /// Number of intents written so far.
    pub fn intent_count(&self) -> (n: usize)
        ensures
            n == self@.intents.len(),
    {
        self.intents.len()
    }

    /// Number of ticks recorded so far.
    pub fn tick_count(&self) -> (n: usize)
        ensures
            n == self@.ticks.len(),
    {
        self.ticks.len()
    }

    fn find_in_flight(&self, validator_id: u128) -> (found: Option<usize>)
        ensures
            found matches Some(i) ==> {
                &&& i < self@.intents.len()
                &&& self@.intents[i as int].validator_id == validator_id
                &&& self@.intents[i as int].state.in_flight()
                &&& self@.has_in_flight(validator_id)
            },
            found is None ==> !self@.has_in_flight(validator_id),
            self@.single_in_flight() ==> (found matches Some(i) ==> self@.in_flight_at(validator_id)
                == i),
    {
        let mut i: usize = 0;
        while i < self.intents.len()
            invariant
                i <= self.intents.len(),
                forall|k: int|
                    0 <= k < i ==> !(self@.intents[k].validator_id == validator_id
                        && self@.intents[k].state.in_flight()),
            decreases self.intents.len() - i,
        {
            if self.intents[i].validator_id == validator_id && self.intents[i].state.is_in_flight() {
                proof {
                    if self@.single_in_flight() {
                        self@.lemma_in_flight_at(i as int);
                    }
                }
                return Some(i);
            }
            i = i + 1;
        }
        None
    }

    /// Identifier of the intent of `validator_id` that has not reached a
    /// terminal state, if there is one.
    pub fn in_flight_intent(&self, validator_id: u128) -> (found: Option<u64>)
        requires
            self.wf(),
        ensures
            found == self@.in_flight_intent(validator_id),
    {
        match self.find_in_flight(validator_id) {
            Some(i) => Some(i as u64),
            None => None,
        }
    }

    /// The intent `intent_id`, if it is stored.
    pub fn intent(&self, intent_id: u64) -> (found: Option<SettlementIntent>)
        ensures
            match found {
                Some(intent) => intent_id < self@.intents.len() && intent@
                    == self@.intents[intent_id as int],
                None => intent_id >= self@.intents.len(),
            },
    {
        if intent_id >= self.intents.len() as u64 {
            return None;
        }
        let stored = &self.intents[intent_id as usize];
        Some(
            SettlementIntent {
                id: stored.id,
                validator_id: stored.validator_id,
                amount: stored.amount,
                state: stored.state,
                external_transfer_id: copy_text(&stored.external_transfer_id),
                failure_reason: copy_text(&stored.failure_reason),
                created_at: stored.created_at,
            },
        )
    }

    /// Takes the exclusive settlement lock of a validator and returns its
    /// address and balance as they stand. Refused with `Conflict` while the
    /// lock is held; other validators are not affected.
    pub fn lock_validator_for_settlement(&mut self, validator_id: u128) -> (r: Result<
        ValidatorSnapshot,
        LedgerError,
    >)
        requires
            old(self).wf(),
        ensures
            final(self).wf(),
            final(self)@ == old(self)@.lock_validator(validator_id).0,
            match r {
                Ok(snapshot) => {
                    &&& old(self)@.lock_validator(validator_id).1 is Ok
                    &&& snapshot.validator_id == validator_id
                    &&& snapshot.address@ == old(self)@.validator(validator_id).address
                    &&& snapshot.pending_amount == old(self)@.validator(
                        validator_id,
                    ).pending_amount
                },
                Err(e) => old(self)@.lock_validator(validator_id).1 == Err::<(), LedgerError>(e),
            },
    {
        proof {
            self@.lemma_lock_validator_wf(validator_id);
        }
        let v = match self.find_validator(validator_id) {
            Some(v) => v,
            None => {
                return Err(LedgerError::NotFound);
            },
        };
        if self.validators[v].locked {
            return Err(LedgerError::Conflict);
        }
        let snapshot = ValidatorSnapshot {
            validator_id,
            address: self.validators[v].address.clone(),
            pending_amount: self.validators[v].pending_amount,
        };
        self.validators[v].locked = true;
        assert(final(self)@.validators =~= old(self)@.with_locked(v as int, true).validators);
        Ok(snapshot)
    }

    /// Gives the settlement lock of a validator back, as the commit or the
    /// rollback of the settlement transaction does.
    pub fn release_validator_lock(&mut self, validator_id: u128) -> (r: Result<(), LedgerError>)
        requires
            old(self).wf(),
        ensures
            final(self).wf(),
            (final(self)@, r) == old(self)@.release_validator(validator_id),
    {
        proof {
            self@.lemma_lock_validator_wf(validator_id);
        }
        let v = match self.find_validator(validator_id) {
            Some(v) => v,
            None => {
                return Err(LedgerError::NotFound);
            },
        };
        if !self.validators[v].locked {
            return Err(LedgerError::NotLocked);
        }
        self.validators[v].locked = false;
        assert(final(self)@.validators =~= old(self)@.with_locked(v as int, false).validators);
        Ok(())
    }

    /// Persists a `Created` intent for `amount` while the validator's lock is
    /// held. Refused with `Conflict` while another intent of the validator is
    /// in flight, and with `InvalidAmount` unless `0 < amount <= pending`.
    pub fn write_intent(&mut self, validator_id: u128, amount: u64, created_at: i64) -> (r: Result<
        u64,
        LedgerError,
    >)
        requires
            old(self).wf(),
        ensures
            final(self).wf(),
            (final(self)@, r) == old(self)@.write_intent(validator_id, amount, created_at),
    {
        proof {
            self@.lemma_write_intent_wf(validator_id, amount, created_at);
        }
        let v = match self.find_validator(validator_id) {
            Some(v) => v,
            None => {
                return Err(LedgerError::NotFound);
            },
        };
        if !self.validators[v].locked {
            return Err(LedgerError::NotLocked);
        }
        if self.find_in_flight(validator_id).is_some() {
            return Err(LedgerError::Conflict);
        }
        if amount == 0 || amount > self.validators[v].pending_amount {
            return Err(LedgerError::InvalidAmount);
        }
        if self.intents.len() as u64 >= u64::MAX {
            return Err(LedgerError::Exhausted);
        }
        let id = self.intents.len() as u64;
        self.intents.push(
            SettlementIntent {
                id,
                validator_id,
                amount,
                state: IntentState::Created,
                external_transfer_id: None,
                failure_reason: None,
                created_at,
            },
        );
        assert(final(self)@.intents =~= old(self)@.write_intent(
            validator_id,
            amount,
            created_at,
        ).0.intents);
        Ok(id)
    }

    /// Moves an intent from `Created` to `Submitted`.
    pub fn mark_intent_submitted(&mut self, intent_id: u64) -> (r: Result<(), LedgerError>)
        requires
            old(self).wf(),
        ensures
            final(self).wf(),
            (final(self)@, r) == old(self)@.mark_submitted(intent_id),
    {
        proof {
            self@.lemma_mark_submitted_wf(intent_id);
        }
        if intent_id >= self.intents.len() as u64 {
            return Err(LedgerError::NotFound);
        }
        let i = intent_id as usize;
        match self.intents[i].state {
            IntentState::Created => {},
            _ => {
                return Err(LedgerError::InvalidTransition);
            },
        }
        self.intents[i].state = IntentState::Submitted;
        assert(final(self)@.intents =~= old(self)@.mark_submitted(intent_id).0.intents);
        Ok(())
    }

    /// Moves an intent from `Submitted` to `Confirmed`, records the external
    /// transfer and, in the same step, takes the amount that the intent
    /// captured off the validator's balance. Credit that arrived after the
    /// intent was written stays.
    pub fn mark_intent_confirmed(&mut self, intent_id: u64, external_transfer_id: &str) -> (r:
        Result<(), LedgerError>)
        requires
            old(self).wf(),
        ensures
            final(self).wf(),
            (final(self)@, r) == old(self)@.mark_confirmed(intent_id, external_transfer_id@),
    {
        proof {
            self@.lemma_mark_confirmed_wf(intent_id, external_transfer_id@);
        }
        if intent_id >= self.intents.len() as u64 {
            return Err(LedgerError::NotFound);
        }
        let i = intent_id as usize;
        match self.intents[i].state {
            IntentState::Submitted => {},
            _ => {
                return Err(LedgerError::InvalidTransition);
            },
        }
        let amount = self.intents[i].amount;
        let owner = self.intents[i].validator_id;
        let v = match self.find_validator(owner) {
            Some(v) => v,
            None => {
                assert(self@.has_validator(self@.intents[i as int].validator_id));
                return Err(LedgerError::NotFound);
            },
        };
        let balance = self.validators[v].pending_amount;
        assert(amount <= balance) by {
            assert(self@.intents[i as int].state.in_flight());
            assert(self@.intents[i as int].amount <= self@.pending(owner));
        }
        self.intents[i].state = IntentState::Confirmed;
        self.intents[i].external_transfer_id = Some(external_transfer_id.to_owned());
        self.validators[v].pending_amount = balance - amount;
        assert(final(self)@.intents =~= old(self)@.mark_confirmed(
            intent_id,
            external_transfer_id@,
        ).0.intents);
        assert(final(self)@.validators =~= old(self)@.mark_confirmed(
            intent_id,
            external_transfer_id@,
        ).0.validators);
        Ok(())
    }

    /// Moves an intent from `Submitted` to `Failed` and records the reason.
    /// No balance changes: nothing was taken off when the intent was written.
    pub fn mark_intent_failed(&mut self, intent_id: u64, reason: &str) -> (r: Result<
        (),
        LedgerError,
    >)
        requires
            old(self).wf(),
        ensures
            final(self).wf(),
            (final(self)@, r) == old(self)@.mark_failed(intent_id, reason@),
    {
        proof {
            self@.lemma_mark_failed_wf(intent_id, reason@);
        }
        if intent_id >= self.intents.len() as u64 {
            return Err(LedgerError::NotFound);
        }
        let i = intent_id as usize;
        match self.intents[i].state {
            IntentState::Submitted => {},
            _ => {
                return Err(LedgerError::InvalidTransition);
            },
        }
        self.intents[i].state = IntentState::Failed;
        self.intents[i].failure_reason = Some(reason.to_owned());
        assert(final(self)@.intents =~= old(self)@.mark_failed(intent_id, reason@).0.intents);
        Ok(())
    }
}

fn copy_text(text: &Option<String>) -> (r: Option<String>)
    ensures
        opt_text(r) == opt_text(*text),
{
    match text {
        Some(t) => Some(t.clone()),
        None => None,
    }
}

fn copy_website(w: &WebsiteRecord) -> (r: WebsiteRecord)
    ensures
        r@ == w@,
{
    WebsiteRecord { id: w.id, url: w.url.clone(), user_id: w.user_id, disabled: w.disabled }
}

} // verus!
