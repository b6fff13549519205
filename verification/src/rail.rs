//! The payment rail as the settlement engine sees it, and an in-memory rail
//! that follows a script.

use vstd::prelude::*;

verus! {

/// Why a transfer did not come back confirmed.
#[derive(Clone, Debug, PartialEq, Eq)]
pub enum RailError {
    /// The rail could not be reached or did not answer in time. Whether the
    /// transfer happened is unknown.
    Transient,
    /// The rail refused the transfer, for the reason given. Nothing was sent.
    Rejected(String),
}

/// `RailError` as a mathematical value: texts are sequences of characters.
pub enum RailErrorView {
    Transient,
    Rejected(Seq<char>),
}

impl View for RailError {
    type V = RailErrorView;

    open spec fn view(&self) -> RailErrorView {
        match self {
            RailError::Transient => RailErrorView::Transient,
            RailError::Rejected(reason) => RailErrorView::Rejected(reason@),
        }
    }
}

/// View of what a transfer returned.
pub open spec fn outcome_view(outcome: Result<String, RailError>) -> Result<
    Seq<char>,
    RailErrorView,
> {
    match outcome {
        Ok(transfer_id) => Ok(transfer_id@),
        Err(e) => Err(e@),
    }
}

/// What a rail knows of the transfer made under an idempotency key.
#[derive(Clone, Debug, PartialEq, Eq)]
pub enum Lookup {
    /// The rail holds a transfer under the key.
    Found(String),
    /// The rail holds no transfer under the key.
    Missing,
    /// The rail cannot look transfers up.
    Unsupported,
}

/// `Lookup` as a mathematical value: texts are sequences of characters.
pub enum LookupView {
    Found(Seq<char>),
    Missing,
    Unsupported,
}

impl View for Lookup {
    type V = LookupView;

    open spec fn view(&self) -> LookupView {
        match self {
            Lookup::Found(transfer_id) => LookupView::Found(transfer_id@),
            Lookup::Missing => LookupView::Missing,
            Lookup::Unsupported => LookupView::Unsupported,
        }
    }
}

/// The arguments of one transfer call.
#[derive(Clone, Debug, PartialEq, Eq)]
pub struct TransferCall {
    pub address: String,
    pub amount: u64,
    pub idempotency_key: String,
}

/// `TransferCall` as a mathematical value: texts are sequences of characters.
pub struct TransferCallView {
    pub address: Seq<char>,
    pub amount: u64,
    pub idempotency_key: Seq<char>,
}

impl View for TransferCall {
    type V = TransferCallView;

    open spec fn view(&self) -> TransferCallView {
        TransferCallView {
            address: self.address@,
            amount: self.amount,
            idempotency_key: self.idempotency_key@,
        }
    }
}

/// What a rail that can look transfers up knows, given what it returned.
pub fn found_or_missing(held: Option<String>) -> (found: Lookup)
    ensures
        found@ == match held {
            Some(transfer_id) => LookupView::Found(transfer_id@),
            None => LookupView::Missing,
        },
{
    match held {
        Some(transfer_id) => Lookup::Found(transfer_id),
        None => Lookup::Missing,
    }
}

/// An external transfer executor. Nothing is promised of what it answers:
/// the settlement engine is correct for every answer.
pub trait PaymentRail {
    /// Attempts to transfer `amount` to `address`. Two calls under one
    /// idempotency key are meant to result in at most one transfer.
    fn transfer(&mut self, address: &str, amount: u64, idempotency_key: &str) -> Result<
        String,
        RailError,
    >;

    /// Whether the rail can look transfers up by idempotency key.
    fn supports_lookup(&self) -> bool;

    /// The identifier of the transfer made under `idempotency_key`, if the
    /// rail holds one. A rail that cannot look transfers up holds none.
    fn lookup(&mut self, idempotency_key: &str) -> Option<String>;
}

/// One lookup that a rail answered: the key that was asked about and what
/// the rail knew.
pub struct LookupRecord {
    pub idempotency_key: Seq<char>,
    pub answer: LookupView,
}

/// A rail under audit: every transfer that is asked of the rail through
/// this handle is on record, with what the rail answered, and so is every
/// lookup that the rail answered. Whether the rail can look transfers up is
/// asked once, when the rail is put under audit.
pub struct Audited<R> {
    rail: R,
    looks_up: bool,
    requested: Ghost<Seq<TransferCallView>>,
    answered: Ghost<Seq<Result<Seq<char>, RailErrorView>>>,
    looked_up: Ghost<Seq<LookupRecord>>,
}

impl<R: PaymentRail> Audited<R> {
    /// Every transfer asked for through this handle, oldest first.
    pub closed spec fn requested(&self) -> Seq<TransferCallView> {
        self.requested@
    }

    /// The rail behind this handle.
    pub closed spec fn inner(&self) -> R {
        self.rail
    }

    /// Puts a rail under audit, with nothing on record, and asks it whether
    /// it can look transfers up.
    pub fn new(rail: R) -> (audited: Self)
        ensures
            audited.requested() == Seq::<TransferCallView>::empty(),
            audited.answered() == Seq::<Result<Seq<char>, RailErrorView>>::empty(),
            audited.looked_up() == Seq::<LookupRecord>::empty(),
            audited.inner() == rail,
    {
        let looks_up = rail.supports_lookup();
        Audited {
            rail,
            looks_up,
            requested: Ghost(Seq::empty()),
            answered: Ghost(Seq::empty()),
            looked_up: Ghost(Seq::empty()),
        }
    }

    /// Takes the rail out of audit.
    pub fn into_rail(self) -> (rail: R)
        ensures
            rail == self.inner(),
    {
        self.rail
    }

    /// Asks the rail for a transfer and puts the request and the rail's
    /// answer on record.
    pub fn transfer(&mut self, address: &str, amount: u64, idempotency_key: &str) -> (outcome:
        Result<String, RailError>)
        ensures
            final(self).requested() == old(self).requested().push(
                TransferCallView {
                    address: address@,
                    amount: amount,
                    idempotency_key: idempotency_key@,
                },
            ),
            final(self).answered() == old(self).answered().push(outcome_view(outcome)),
            final(self).looked_up() == old(self).looked_up(),
            final(self).looks_up() == old(self).looks_up(),
    {
        proof {
            self.requested@ = self.requested@.push(
                TransferCallView {
                    address: address@,
                    amount: amount,
                    idempotency_key: idempotency_key@,
                },
            );
        }
        let outcome = self.rail.transfer(address, amount, idempotency_key);
        proof {
            self.answered@ = self.answered@.push(outcome_view(outcome));
        }
        outcome
    }

    /// Asks the rail what it knows of the transfer made under a key. A rail
    /// that cannot look transfers up is not asked and is left as it is, and
    /// the answer is `Unsupported`. A rail that can is asked, and the answer
    /// is `Found` with the transfer that it holds under the key, or
    /// `Missing` where it holds none; key and answer go on record.
    /// No transfer is asked for.
    pub fn lookup(&mut self, idempotency_key: &str) -> (found: Lookup)
        ensures
            final(self).requested() == old(self).requested(),
            final(self).answered() == old(self).answered(),
            final(self).looks_up() == old(self).looks_up(),
            found is Unsupported <==> !old(self).looks_up(),
            !old(self).looks_up() ==> *final(self) == *old(self),
            old(self).looks_up() ==> final(self).looked_up() == old(self).looked_up().push(
                LookupRecord { idempotency_key: idempotency_key@, answer: found@ },
            ),
    {
        if self.looks_up {
            let found = found_or_missing(self.rail.lookup(idempotency_key));
            proof {
                self.looked_up@ = self.looked_up@.push(
                    LookupRecord { idempotency_key: idempotency_key@, answer: found@ },
                );
            }
            found
        } else {
            Lookup::Unsupported
        }
    }

    /// Whether the rail said, when it was put under audit, that it can look
    /// transfers up.
    pub closed spec fn looks_up(&self) -> bool {
        self.looks_up
    }

    /// What the rail answered to each transfer asked for through this
    /// handle, oldest first: as many answers as requests.
    pub closed spec fn answered(&self) -> Seq<Result<Seq<char>, RailErrorView>> {
        self.answered@
    }

    /// Every lookup that the rail answered through this handle, oldest
    /// first.
    pub closed spec fn looked_up(&self) -> Seq<LookupRecord> {
        self.looked_up@
    }

    /// Whether lookups through this handle reach the rail.
    pub fn can_look_up(&self) -> (able: bool)
        ensures
            able == self.looks_up(),
    {
        self.looks_up
    }

    /// The rail behind this handle.
    pub fn rail(&self) -> (rail: &R)
        ensures
            *rail == self.inner(),
    {
        &self.rail
    }
}

/// What the scripted rail answers to one transfer call.
#[derive(Clone, Debug, PartialEq, Eq)]
pub enum MockAnswer {
    /// The transfer is made and confirmed under this identifier.
    Confirm(String),
    /// The rail refuses, for this reason.
    Reject(String),
    /// The call times out and no transfer was made.
    Timeout,
    /// The call times out although the transfer was made under this
    /// identifier.
    TimeoutAfterSend(String),
}

/// `MockAnswer` as a mathematical value: texts are sequences of characters.
pub enum MockAnswerView {
    Confirm(Seq<char>),
    Reject(Seq<char>),
    Timeout,
    TimeoutAfterSend(Seq<char>),
}

impl View for MockAnswer {
    type V = MockAnswerView;

    open spec fn view(&self) -> MockAnswerView {
        match self {
            MockAnswer::Confirm(t) => MockAnswerView::Confirm(t@),
            MockAnswer::Reject(r) => MockAnswerView::Reject(r@),
            MockAnswer::Timeout => MockAnswerView::Timeout,
            MockAnswer::TimeoutAfterSend(t) => MockAnswerView::TimeoutAfterSend(t@),
        }
    }
}

/// A transfer that the scripted rail holds: the key it was made under and
/// its identifier.
pub struct SentTransfer {
    pub idempotency_key: String,
    pub transfer_id: String,
}

/// `SentTransfer` as a mathematical value: texts are sequences of characters.
pub struct SentTransferView {
    pub idempotency_key: Seq<char>,
    pub transfer_id: Seq<char>,
}

impl View for SentTransfer {
    type V = SentTransferView;

    open spec fn view(&self) -> SentTransferView {
        SentTransferView {
            idempotency_key: self.idempotency_key@,
            transfer_id: self.transfer_id@,
        }
    }
}

/// The scripted rail as a mathematical value.
pub struct MockRailView {
    /// Answers still to be given, the next one first.
    pub answers: Seq<MockAnswerView>,
    /// Every transfer call so far, oldest first.
    pub calls: Seq<TransferCallView>,
    /// Every transfer made so far, oldest first.
    pub sent: Seq<SentTransferView>,
    pub lookup_enabled: bool,
}

impl MockRailView {
    /// The answer to the next transfer call: the next scripted one, a
    /// refusal once the script has run out.
    pub open spec fn next_answer(self) -> MockAnswerView {
        if self.answers.len() > 0 {
            self.answers[0]
        } else {
            MockAnswerView::Reject("no answer scripted"@)
        }
    }

    /// What the next transfer call returns.
    pub open spec fn transfer_result(self) -> Result<Seq<char>, RailErrorView> {
        match self.next_answer() {
            MockAnswerView::Confirm(t) => Ok(t),
            MockAnswerView::Reject(r) => Err(RailErrorView::Rejected(r)),
            MockAnswerView::Timeout => Err(RailErrorView::Transient),
            MockAnswerView::TimeoutAfterSend(_) => Err(RailErrorView::Transient),
        }
    }

    /// The rail after a transfer call with these arguments.
    pub open spec fn after_transfer(
        self,
        address: Seq<char>,
        amount: u64,
        idempotency_key: Seq<char>,
    ) -> MockRailView {
        let call = TransferCallView {
            address: address,
            amount: amount,
            idempotency_key: idempotency_key,
        };
        MockRailView {
            answers: if self.answers.len() > 0 {
                self.answers.drop_first()
            } else {
                self.answers
            },
            calls: self.calls.push(call),
            sent: match self.next_answer() {
                MockAnswerView::Confirm(t) => self.sent.push(
                    SentTransferView { idempotency_key: idempotency_key, transfer_id: t },
                ),
                MockAnswerView::TimeoutAfterSend(t) => self.sent.push(
                    SentTransferView { idempotency_key: idempotency_key, transfer_id: t },
                ),
                _ => self.sent,
            },
            ..self
        }
    }

    pub open spec fn holds(self, idempotency_key: Seq<char>) -> bool {
        exists|i: int|
            0 <= i < self.sent.len() && self.sent[i].idempotency_key == idempotency_key
    }

    /// Position of the first transfer made under the key; meaningful when
    /// `holds(idempotency_key)`.
    pub open spec fn first_under(self, idempotency_key: Seq<char>) -> int {
        choose|i: int|
            0 <= i < self.sent.len() && self.sent[i].idempotency_key == idempotency_key
                && forall|j: int| 0 <= j < i ==> self.sent[j].idempotency_key != idempotency_key
    }

    /// What a lookup under the key returns.
    pub open spec fn lookup_result(self, idempotency_key: Seq<char>) -> LookupView {
        if !self.lookup_enabled {
            LookupView::Unsupported
        } else if self.holds(idempotency_key) {
            LookupView::Found(self.sent[self.first_under(idempotency_key)].transfer_id)
        } else {
            LookupView::Missing
        }
    }
}

/// A deterministic in-memory rail: it answers transfer calls from a script,
/// records every call, and remembers the transfers it made.
pub struct MockRail {
    answers: Vec<MockAnswer>,
    calls: Vec<TransferCall>,
    sent: Vec<SentTransfer>,
    lookup_enabled: bool,
}

impl View for MockRail {
    type V = MockRailView;

    closed spec fn view(&self) -> MockRailView {
        MockRailView {
            answers: self.answers@.map_values(|a: MockAnswer| a@),
            calls: self.calls@.map_values(|c: TransferCall| c@),
            sent: self.sent@.map_values(|t: SentTransfer| t@),
            lookup_enabled: self.lookup_enabled,
        }
    }
}

impl MockRail {
    /// A rail with an empty script that has seen no call.
    pub fn new(lookup_enabled: bool) -> (rail: MockRail)
        ensures
            rail@ == (MockRailView {
                answers: Seq::empty(),
                calls: Seq::empty(),
                sent: Seq::empty(),
                lookup_enabled: lookup_enabled,
            }),
    {
        let rail = MockRail {
            answers: Vec::new(),
            calls: Vec::new(),
            sent: Vec::new(),
            lookup_enabled,
        };
        assert(rail@.answers =~= Seq::empty());
        assert(rail@.calls =~= Seq::empty());
        assert(rail@.sent =~= Seq::empty());
        rail
    }

    /// Adds an answer to the end of the script.
    pub fn script(&mut self, answer: MockAnswer)
        ensures
            final(self)@ == (MockRailView {
                answers: old(self)@.answers.push(answer@),
                ..old(self)@
            }),
    {
        self.answers.push(answer);
        assert(final(self)@.answers =~= old(self)@.answers.push(answer@));
    }

    /// Number of transfer calls seen so far.
    pub fn call_count(&self) -> (n: usize)
        ensures
            n == self@.calls.len(),
    {
        self.calls.len()
    }

    /// The arguments of the `i`-th transfer call, if there were that many.
    pub fn call(&self, i: usize) -> (found: Option<TransferCall>)
        ensures
            match found {
                Some(c) => i < self@.calls.len() && c@ == self@.calls[i as int],
                None => i >= self@.calls.len(),
            },
    {
        if i < self.calls.len() {
            Some(
                TransferCall {
                    address: self.calls[i].address.clone(),
                    amount: self.calls[i].amount,
                    idempotency_key: self.calls[i].idempotency_key.clone(),
                },
            )
        } else {
            None
        }
    }
}

impl PaymentRail for MockRail {
    fn transfer(&mut self, address: &str, amount: u64, idempotency_key: &str) -> (outcome: Result<
        String,
        RailError,
    >)
        ensures
            final(self)@ == old(self)@.after_transfer(address@, amount, idempotency_key@),
            outcome_view(outcome) == old(self)@.transfer_result(),
    {
        self.calls.push(
            TransferCall {
                address: address.to_owned(),
                amount,
                idempotency_key: idempotency_key.to_owned(),
            },
        );
        assert(self@.calls =~= old(self)@.calls.push(
            TransferCallView {
                address: address@,
                amount: amount,
                idempotency_key: idempotency_key@,
            },
        ));
        let answer = if self.answers.len() > 0 {
            let first = self.answers.remove(0);
            assert(self@.answers =~= old(self)@.answers.drop_first());
            first
        } else {
            MockAnswer::Reject("no answer scripted".to_owned())
        };
        assert(answer@ == old(self)@.next_answer());
        match answer {
            MockAnswer::Confirm(transfer_id) => {
                self.sent.push(
                    SentTransfer {
                        idempotency_key: idempotency_key.to_owned(),
                        transfer_id: transfer_id.clone(),
                    },
                );
                assert(self@.sent =~= old(self)@.sent.push(
                    SentTransferView {
                        idempotency_key: idempotency_key@,
                        transfer_id: transfer_id@,
                    },
                ));
                Ok(transfer_id)
            },
            MockAnswer::Reject(reason) => Err(RailError::Rejected(reason)),
            MockAnswer::Timeout => Err(RailError::Transient),
            MockAnswer::TimeoutAfterSend(transfer_id) => {
                self.sent.push(
                    SentTransfer { idempotency_key: idempotency_key.to_owned(), transfer_id },
                );
                assert(self@.sent =~= old(self)@.sent.push(
                    SentTransferView {
                        idempotency_key: idempotency_key@,
                        transfer_id: transfer_id@,
                    },
                ));
                Err(RailError::Transient)
            },
        }
    }

    fn supports_lookup(&self) -> (supported: bool)
        ensures
            supported == self@.lookup_enabled,
    {
        self.lookup_enabled
    }

    fn lookup(&mut self, idempotency_key: &str) -> (held: Option<String>)
        ensures
            final(self)@ == old(self)@,
            match held {
                Some(transfer_id) => old(self)@.lookup_result(idempotency_key@)
                    == LookupView::Found(transfer_id@),
                None => !(old(self)@.lookup_result(idempotency_key@) is Found),
            },
    {
        if !self.lookup_enabled {
            return None;
        }
        let key = idempotency_key.to_owned();
        let mut i: usize = 0;
        while i < self.sent.len()
            invariant
                i <= self.sent.len(),
                key@ == idempotency_key@,
                *self == *old(self),
                self@.lookup_enabled,
                forall|j: int| 0 <= j < i ==> self@.sent[j].idempotency_key != idempotency_key@,
            decreases self.sent.len() - i,
        {
            if self.sent[i].idempotency_key == key {
                assert(self@.first_under(idempotency_key@) == i) by {
                    let view = self@;
                    let key_view = idempotency_key@;
                    let c = view.first_under(key_view);
                    assert(0 <= i < view.sent.len() && view.sent[i as int].idempotency_key
                        == key_view && forall|j: int|
                        0 <= j < i ==> view.sent[j].idempotency_key != key_view);
                    assert(0 <= c < view.sent.len() && view.sent[c].idempotency_key == key_view
                        && forall|j: int| 0 <= j < c ==> view.sent[j].idempotency_key != key_view);
                }
                assert(self@.sent[i as int].idempotency_key == idempotency_key@);
                assert(self@.holds(idempotency_key@));
                return Some(self.sent[i].transfer_id.clone());
            }
            i = i + 1;
        }
        None
    }
}

} // verus!
