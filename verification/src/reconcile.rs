//! Reconciliation of intents that were left in flight: after a crash or a
//! timeout nobody knows whether the transfer happened, and the validator is
//! not settled again until its intent has reached a terminal state.

use vstd::prelude::*;
use crate::ledger::Ledger;
use crate::rail::{Audited, Lookup, LookupRecord, LookupView, PaymentRail};
use crate::records::{IntentState, LedgerError};
use crate::settlement::{idempotency_key, make_idempotency_key};
use crate::state::LedgerState;

verus! {

/// Why an intent was given up. Each is a condition for an operator to look
/// at: the transfer may have happened all the same.
#[derive(Clone, Copy, Debug, PartialEq, Eq, Structural)]
pub enum ReconcileAlert {
    /// The rail holds no matching transfer and the grace period is over.
    GracePeriodExpired,
    /// The rail cannot look transfers up, so the intent was failed unseen.
    LookupUnsupported,
}

/// What reconciling one intent came to.
#[derive(Clone, Debug, PartialEq, Eq)]
pub enum Reconciliation {
    /// The rail holds the transfer: the intent is confirmed and its amount
    /// taken off the balance.
    Confirmed { transfer_id: String },
    /// The rail holds no transfer yet and the grace period is not over: the
    /// intent stays submitted.
    StillSubmitted,
    /// The intent was marked failed, with the balance as it was.
    Abandoned { alert: ReconcileAlert },
}

/// `Reconciliation` as a mathematical value: texts are sequences of characters.
pub enum ReconciliationView {
    Confirmed { transfer_id: Seq<char> },
    StillSubmitted,
    Abandoned { alert: ReconcileAlert },
}

impl View for Reconciliation {
    type V = ReconciliationView;

    open spec fn view(&self) -> ReconciliationView {
        match self {
            Reconciliation::Confirmed { transfer_id } => ReconciliationView::Confirmed {
                transfer_id: transfer_id@,
            },
            Reconciliation::StillSubmitted => ReconciliationView::StillSubmitted,
            Reconciliation::Abandoned { alert } => ReconciliationView::Abandoned { alert: *alert },
        }
    }
}

/// View of the result of a reconciliation.
pub open spec fn reconciled_view(r: Result<Reconciliation, LedgerError>) -> Result<
    ReconciliationView,
    LedgerError,
> {
    match r {
        Ok(done) => Ok(done@),
        Err(e) => Err(e),
    }
}

/// Whether an intent written at `created_at` has been in flight for at least
/// `grace_seconds` at `now`.
pub open spec fn grace_expired(created_at: i64, now: i64, grace_seconds: u64) -> bool {
    now - created_at >= grace_seconds
}

impl ReconcileAlert {
    /// The reason recorded on an intent that was given up.
    pub open spec fn reason(self) -> Seq<char> {
        match self {
            ReconcileAlert::GracePeriodExpired => "no matching transfer found within the grace period"@,
            ReconcileAlert::LookupUnsupported => "payment rail cannot look transfers up"@,
        }
    }

    pub fn reason_text(&self) -> (text: &'static str)
        ensures
            text@ == self.reason(),
    {
        match self {
            ReconcileAlert::GracePeriodExpired => "no matching transfer found within the grace period",
            ReconcileAlert::LookupUnsupported => "payment rail cannot look transfers up",
        }
    }
}

/// What is to become of an in-flight intent written at `created_at`, given
/// what the rail knows of its transfer: a transfer that is found confirms
/// it; while none is found it waits until the grace period is over and is
/// then given up; without a lookup it is given up at once.
pub open spec fn reconciliation(
    lookup: LookupView,
    created_at: i64,
    now: i64,
    grace_seconds: u64,
) -> ReconciliationView {
    match lookup {
        LookupView::Found(transfer_id) => ReconciliationView::Confirmed {
            transfer_id: transfer_id,
        },
        LookupView::Missing => if grace_expired(created_at, now, grace_seconds) {
            ReconciliationView::Abandoned { alert: ReconcileAlert::GracePeriodExpired }
        } else {
            ReconciliationView::StillSubmitted
        },
        LookupView::Unsupported => ReconciliationView::Abandoned {
            alert: ReconcileAlert::LookupUnsupported,
        },
    }
}

/// Decides what is to become of an in-flight intent.
pub fn decide_reconciliation(lookup: Lookup, created_at: i64, now: i64, grace_seconds: u64) -> (r:
    Reconciliation)
    ensures
        r@ == reconciliation(lookup@, created_at, now, grace_seconds),
{
    match lookup {
        Lookup::Found(transfer_id) => Reconciliation::Confirmed { transfer_id },
        Lookup::Missing => {
            if now as i128 - created_at as i128 >= grace_seconds as i128 {
                Reconciliation::Abandoned { alert: ReconcileAlert::GracePeriodExpired }
            } else {
                Reconciliation::StillSubmitted
            }
        },
        Lookup::Unsupported => Reconciliation::Abandoned {
            alert: ReconcileAlert::LookupUnsupported,
        },
    }
}

impl LedgerState {
    /// Whether the intent is stored and has not reached a terminal state.
    pub open spec fn awaits_reconciliation(self, intent_id: u64) -> bool {
        intent_id < self.intents.len() && self.intents[intent_id as int].state.in_flight()
    }

    /// What the rail's knowledge of a transfer does to an in-flight intent.
    /// An intent that was written but never submitted is submitted first.
    pub open spec fn reconcile(
        self,
        intent_id: u64,
        lookup: LookupView,
        now: i64,
        grace_seconds: u64,
    ) -> (LedgerState, Result<ReconciliationView, LedgerError>) {
        if intent_id >= self.intents.len() {
            (self, Err(LedgerError::NotFound))
        } else if !self.intents[intent_id as int].state.in_flight() {
            (self, Err(LedgerError::InvalidTransition))
        } else {
            let submitted = if self.intents[intent_id as int].state is Created {
                self.mark_submitted(intent_id).0
            } else {
                self
            };
            let verdict = reconciliation(
                lookup,
                self.intents[intent_id as int].created_at,
                now,
                grace_seconds,
            );
            (
                match verdict {
                    ReconciliationView::Confirmed { transfer_id } => submitted.mark_confirmed(
                        intent_id,
                        transfer_id,
                    ).0,
                    ReconciliationView::StillSubmitted => submitted,
                    ReconciliationView::Abandoned { alert } => submitted.mark_failed(
                        intent_id,
                        alert.reason(),
                    ).0,
                },
                Ok(verdict),
            )
        }
    }

    pub proof fn lemma_reconcile_wf(
        self,
        intent_id: u64,
        lookup: LookupView,
        now: i64,
        grace_seconds: u64,
    )
        requires
            self.wf(),
        ensures
            self.reconcile(intent_id, lookup, now, grace_seconds).0.wf(),
    {
        if self.awaits_reconciliation(intent_id) {
            self.lemma_mark_submitted_wf(intent_id);
            let submitted = if self.intents[intent_id as int].state is Created {
                self.mark_submitted(intent_id).0
            } else {
                self
            };
            submitted.lemma_mark_failed_wf(intent_id, ReconcileAlert::GracePeriodExpired.reason());
            submitted.lemma_mark_failed_wf(intent_id, ReconcileAlert::LookupUnsupported.reason());
            if let LookupView::Found(transfer_id) = lookup {
                submitted.lemma_mark_confirmed_wf(intent_id, transfer_id);
            }
        }
    }
}

/// Reconciles one in-flight intent with what the rail knows of its transfer.
pub fn reconcile_with(
    ledger: &mut Ledger,
    intent_id: u64,
    lookup: Lookup,
    now: i64,
    grace_seconds: u64,
) -> (r: Result<Reconciliation, LedgerError>)
    requires
        old(ledger).wf(),
    ensures
        final(ledger).wf(),
        (final(ledger)@, reconciled_view(r)) == old(ledger)@.reconcile(
            intent_id,
            lookup@,
            now,
            grace_seconds,
        ),
{
    proof {
        ledger@.lemma_reconcile_wf(intent_id, lookup@, now, grace_seconds);
    }
    let intent = match ledger.intent(intent_id) {
        Some(intent) => intent,
        None => {
            return Err(LedgerError::NotFound);
        },
    };
    match intent.state {
        IntentState::Created => {
            let submitted = ledger.mark_intent_submitted(intent_id);
            assert(submitted is Ok);
        },
        IntentState::Submitted => {},
        _ => {
            return Err(LedgerError::InvalidTransition);
        },
    }
    let verdict = decide_reconciliation(lookup, intent.created_at, now, grace_seconds);
    match &verdict {
        Reconciliation::Confirmed { transfer_id } => {
            let confirmed = ledger.mark_intent_confirmed(intent_id, transfer_id.as_str());
            assert(confirmed is Ok);
        },
        Reconciliation::StillSubmitted => {},
        Reconciliation::Abandoned { alert } => {
            let failed = ledger.mark_intent_failed(intent_id, alert.reason_text());
            assert(failed is Ok);
        },
    }
    Ok(verdict)
}

/// Reconciles one intent against a rail. The rail is asked what it knows of
/// the transfer made under the intent's idempotency key, if the intent is in
/// flight and the rail can look transfers up; ledger and result are then
/// those of `LedgerState::reconcile` for the answer, which goes on record.
/// Otherwise the rail is left as it is, and ledger and result are those for
/// a rail without lookup. No transfer is asked for.
pub fn reconcile<R: PaymentRail>(
    ledger: &mut Ledger,
    rail: &mut Audited<R>,
    intent_id: u64,
    now: i64,
    grace_seconds: u64,
) -> (r: Result<Reconciliation, LedgerError>)
    requires
        old(ledger).wf(),
    ensures
        final(ledger).wf(),
        final(rail).requested() == old(rail).requested(),
        final(rail).answered() == old(rail).answered(),
        final(rail).looks_up() == old(rail).looks_up(),
        !old(rail).looks_up() ==> {
            &&& *final(rail) == *old(rail)
            &&& (final(ledger)@, reconciled_view(r)) == old(ledger)@.reconcile(
                intent_id,
                LookupView::Unsupported,
                now,
                grace_seconds,
            )
        },
        !old(ledger)@.awaits_reconciliation(intent_id) ==> {
            &&& *final(rail) == *old(rail)
            &&& forall|lookup: LookupView|
                (final(ledger)@, reconciled_view(r)) == #[trigger] old(ledger)@.reconcile(
                    intent_id,
                    lookup,
                    now,
                    grace_seconds,
                )
        },
        old(ledger)@.awaits_reconciliation(intent_id) && old(rail).looks_up() ==> {
            &&& final(rail).looked_up() == old(rail).looked_up().push(
                LookupRecord {
                    idempotency_key: idempotency_key(intent_id),
                    answer: final(rail).looked_up().last().answer,
                },
            )
            &&& !(final(rail).looked_up().last().answer is Unsupported)
            &&& (final(ledger)@, reconciled_view(r)) == old(ledger)@.reconcile(
                intent_id,
                final(rail).looked_up().last().answer,
                now,
                grace_seconds,
            )
        },
        old(rail).looks_up() ==> exists|lookup: LookupView|
            !(lookup is Unsupported) && (final(ledger)@, reconciled_view(r)) == #[trigger] old(
                ledger,
            )@.reconcile(intent_id, lookup, now, grace_seconds),
{
    let awaits = match ledger.intent(intent_id) {
        Some(intent) => intent.state.is_in_flight(),
        None => false,
    };
    let lookup = if awaits {
        let key = make_idempotency_key(intent_id);
        rail.lookup(key.as_str())
    } else {
        Lookup::Unsupported
    };
    let ghost answer = lookup@;
    let r = reconcile_with(ledger, intent_id, lookup, now, grace_seconds);
    proof {
        let before = old(ledger)@;
        assert((ledger@, reconciled_view(r)) == before.reconcile(
            intent_id,
            answer,
            now,
            grace_seconds,
        ));
        if !awaits {
            assert((ledger@, reconciled_view(r)) == before.reconcile(
                intent_id,
                LookupView::Missing,
                now,
                grace_seconds,
            ));
        }
    }
    r
}

/// One line of the report of a reconciliation pass.
#[derive(Clone, Debug, PartialEq, Eq)]
pub struct ReconciledIntent {
    pub intent_id: u64,
    pub outcome: Reconciliation,
}

/// `ReconciledIntent` as a mathematical value: texts are sequences of characters.
pub struct ReconciledIntentView {
    pub intent_id: u64,
    pub outcome: ReconciliationView,
}

impl View for ReconciledIntent {
    type V = ReconciledIntentView;

    open spec fn view(&self) -> ReconciledIntentView {
        ReconciledIntentView { intent_id: self.intent_id, outcome: self.outcome@ }
    }
}

impl LedgerState {
    /// The ledger after the first `n` intents were reconciled in turn, the
    /// intent `k` with what the rail answered to the lookup `lookups[k]`.
    /// Intents that are not in flight are passed over.
    pub open spec fn reconcile_first(
        self,
        n: nat,
        lookups: Seq<LookupView>,
        now: i64,
        grace_seconds: u64,
    ) -> LedgerState
        decreases n,
    {
        if n == 0 {
            self
        } else {
            self.reconcile_first((n - 1) as nat, lookups, now, grace_seconds).reconcile(
                (n - 1) as u64,
                lookups[n - 1],
                now,
                grace_seconds,
            ).0
        }
    }

    /// The report of that pass: one line for each intent that was in flight,
    /// in the order of the intents.
    pub open spec fn reconcile_report(
        self,
        n: nat,
        lookups: Seq<LookupView>,
        now: i64,
        grace_seconds: u64,
    ) -> Seq<ReconciledIntentView>
        decreases n,
    {
        if n == 0 {
            Seq::empty()
        } else {
            let before = self.reconcile_first((n - 1) as nat, lookups, now, grace_seconds);
            let lines = self.reconcile_report((n - 1) as nat, lookups, now, grace_seconds);
            match before.reconcile((n - 1) as u64, lookups[n - 1], now, grace_seconds).1 {
                Ok(outcome) => lines.push(
                    ReconciledIntentView { intent_id: (n - 1) as u64, outcome: outcome },
                ),
                Err(_) => lines,
            }
        }
    }

    /// The lookups that the rail answers in that pass: one for each intent
    /// that was in flight when its turn came, under the intent's key, in the
    /// order of the intents.
    pub open spec fn reconcile_lookups(
        self,
        n: nat,
        lookups: Seq<LookupView>,
        now: i64,
        grace_seconds: u64,
    ) -> Seq<LookupRecord>
        decreases n,
    {
        if n == 0 {
            Seq::empty()
        } else {
            let before = self.reconcile_first((n - 1) as nat, lookups, now, grace_seconds);
            let earlier = self.reconcile_lookups((n - 1) as nat, lookups, now, grace_seconds);
            if before.awaits_reconciliation((n - 1) as u64) {
                earlier.push(
                    LookupRecord {
                        idempotency_key: idempotency_key((n - 1) as u64),
                        answer: lookups[n - 1],
                    },
                )
            } else {
                earlier
            }
        }
    }

    /// A pass over the first `n` intents looks at the first `n` answers only.
    pub proof fn lemma_reconcile_first_prefix(
        self,
        n: nat,
        a: Seq<LookupView>,
        b: Seq<LookupView>,
        now: i64,
        grace_seconds: u64,
    )
        requires
            forall|k: int| 0 <= k < n ==> a[k] == b[k],
        ensures
            self.reconcile_first(n, a, now, grace_seconds) == self.reconcile_first(
                n,
                b,
                now,
                grace_seconds,
            ),
            self.reconcile_report(n, a, now, grace_seconds) == self.reconcile_report(
                n,
                b,
                now,
                grace_seconds,
            ),
            self.reconcile_lookups(n, a, now, grace_seconds) == self.reconcile_lookups(
                n,
                b,
                now,
                grace_seconds,
            ),
        decreases n,
    {
        if n > 0 {
            self.lemma_reconcile_first_prefix((n - 1) as nat, a, b, now, grace_seconds);
        }
    }

    /// What a pass over the first `n` intents does: every intent among them
    /// that was in flight ends as its answer decides, every other intent is
    /// as it was, and no tick or website is touched.
    pub proof fn lemma_reconcile_first_effect(
        self,
        n: nat,
        lookups: Seq<LookupView>,
        now: i64,
        grace_seconds: u64,
    )
        requires
            self.wf(),
            n <= self.intents.len(),
        ensures
            ({
                let end = self.reconcile_first(n, lookups, now, grace_seconds);
                &&& end.wf()
                &&& end.intents.len() == self.intents.len()
                &&& end.ticks == self.ticks
                &&& end.websites == self.websites
                &&& forall|k: int|
                    0 <= k < self.intents.len() && !(k < n && self.intents[k].state.in_flight())
                        ==> #[trigger] end.intents[k] == self.intents[k]
                &&& forall|k: int|
                    0 <= k < n && self.intents[k].state.in_flight() ==> (
                    #[trigger] end.intents[k]).state == match reconciliation(
                        lookups[k],
                        self.intents[k].created_at,
                        now,
                        grace_seconds,
                    ) {
                        ReconciliationView::Confirmed { .. } => IntentState::Confirmed,
                        ReconciliationView::StillSubmitted => IntentState::Submitted,
                        ReconciliationView::Abandoned { .. } => IntentState::Failed,
                    }
            }),
        decreases n,
    {
        if n > 0 {
            let before = self.reconcile_first((n - 1) as nat, lookups, now, grace_seconds);
            self.lemma_reconcile_first_effect((n - 1) as nat, lookups, now, grace_seconds);
            before.lemma_reconcile_wf((n - 1) as u64, lookups[n - 1], now, grace_seconds);
            assert(before.intents[n - 1] == self.intents[n - 1]);
        }
    }
}

/// View of a report.
pub open spec fn report_view(report: Seq<ReconciledIntent>) -> Seq<ReconciledIntentView> {
    report.map_values(|line: ReconciledIntent| line@)
}

/// A reconciliation pass: every intent that is in flight is reconciled
/// against the rail, in the order of the intents, and reported. A rail that
/// cannot look transfers up is left as it is, and every answer is
/// `Unsupported`; a rail that can is asked once for each intent in flight,
/// and its answers go on record. Ledger and report are those of the pass for
/// these answers. No transfer is asked for.
pub fn reconcile_all<R: PaymentRail>(
    ledger: &mut Ledger,
    rail: &mut Audited<R>,
    now: i64,
    grace_seconds: u64,
) -> (report: Vec<ReconciledIntent>)
    requires
        old(ledger).wf(),
    ensures
        final(ledger).wf(),
        final(rail).requested() == old(rail).requested(),
        final(rail).answered() == old(rail).answered(),
        final(rail).looks_up() == old(rail).looks_up(),
        !old(rail).looks_up() ==> *final(rail) == *old(rail),
        exists|lookups: Seq<LookupView>|
            {
                &&& lookups.len() == old(ledger)@.intents.len()
                &&& forall|k: int|
                    0 <= k < lookups.len() ==> ((#[trigger] lookups[k]) is Unsupported
                        <==> !old(rail).looks_up())
                &&& final(ledger)@ == #[trigger] old(ledger)@.reconcile_first(
                    old(ledger)@.intents.len(),
                    lookups,
                    now,
                    grace_seconds,
                )
                &&& report_view(report@) == old(ledger)@.reconcile_report(
                    old(ledger)@.intents.len(),
                    lookups,
                    now,
                    grace_seconds,
                )
                &&& old(rail).looks_up() ==> final(rail).looked_up() == old(rail).looked_up()
                    + old(ledger)@.reconcile_lookups(
                    old(ledger)@.intents.len(),
                    lookups,
                    now,
                    grace_seconds,
                )
            },
{
    let n = ledger.intent_count();
    let mut report: Vec<ReconciledIntent> = Vec::new();
    let ghost mut answers: Seq<LookupView> = Seq::empty();
    let mut i: usize = 0;
    assert(report_view(report@) =~= Seq::empty());
    assert(rail.looked_up() + Seq::<LookupRecord>::empty() =~= rail.looked_up());
    while i < n
        invariant
            i <= n,
            n == old(ledger)@.intents.len(),
            old(ledger).wf(),
            ledger.wf(),
            answers.len() == i,
            forall|k: int|
                0 <= k < answers.len() ==> ((#[trigger] answers[k]) is Unsupported <==> !old(
                    rail,
                ).looks_up()),
            rail.requested() == old(rail).requested(),
            rail.answered() == old(rail).answered(),
            rail.looks_up() == old(rail).looks_up(),
            !old(rail).looks_up() ==> *rail == *old(rail),
            old(rail).looks_up() ==> rail.looked_up() == old(rail).looked_up() + old(
                ledger,
            )@.reconcile_lookups(i as nat, answers, now, grace_seconds),
            ledger@ == old(ledger)@.reconcile_first(i as nat, answers, now, grace_seconds),
            report_view(report@) == old(ledger)@.reconcile_report(
                i as nat,
                answers,
                now,
                grace_seconds,
            ),
        decreases n - i,
    {
        let ghost before = ledger@;
        let ghost lines = report_view(report@);
        let ghost looked_up = rail.looked_up();
        let r = reconcile(ledger, rail, i as u64, now, grace_seconds);
        proof {
            let answer = if !old(rail).looks_up() {
                LookupView::Unsupported
            } else if before.awaits_reconciliation(i as u64) {
                rail.looked_up().last().answer
            } else {
                LookupView::Missing
            };
            assert((ledger@, reconciled_view(r)) == before.reconcile(
                i as u64,
                answer,
                now,
                grace_seconds,
            ));
            let longer = answers.push(answer);
            old(ledger)@.lemma_reconcile_first_prefix(
                i as nat,
                answers,
                longer,
                now,
                grace_seconds,
            );
            if old(rail).looks_up() {
                let earlier = old(ledger)@.reconcile_lookups(
                    i as nat,
                    longer,
                    now,
                    grace_seconds,
                );
                if before.awaits_reconciliation(i as u64) {
                    assert(rail.looked_up() =~= old(rail).looked_up() + earlier.push(
                        LookupRecord {
                            idempotency_key: idempotency_key(i as u64),
                            answer: answer,
                        },
                    ));
                }
            }
            answers = longer;
        }
        match r {
            Ok(outcome) => {
                report.push(ReconciledIntent { intent_id: i as u64, outcome });
                assert(report_view(report@) =~= lines.push(
                    ReconciledIntentView { intent_id: i as u64, outcome: outcome@ },
                ));
            },
            Err(_) => {},
        }
        i = i + 1;
    }
    report
}

} // verus!
