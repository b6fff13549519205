//! Tick ingestion: one report at a time, each recorded and credited in a
//! single step, with no ordering between validators or websites.

use vstd::prelude::*;
use crate::ledger::Ledger;
use crate::records::{LedgerError, TickStatus, WebsiteStatus, REWARD_PER_TICK};
use crate::state::LedgerState;

verus! {

/// One observation as a validator reports it.
#[derive(Clone, Copy, Debug, PartialEq, Eq, Structural)]
pub struct TickReport {
    pub website_id: u128,
    pub validator_id: u128,
    pub status: TickStatus,
    pub latency_ms: u64,
    pub observed_at: i64,
}

/// What the reporter learns of a recorded tick.
#[derive(Clone, Copy, Debug, PartialEq, Eq, Structural)]
pub struct TickReceipt {
    pub tick_id: u64,
    /// Status of the website with this tick taken into account.
    pub website_status: WebsiteStatus,
    /// Balance of the reporting validator with this tick credited.
    pub pending_amount: u64,
}

/// The status that the text stands for.
pub open spec fn status_of(text: Seq<char>) -> Option<TickStatus> {
    if text == seq!['u', 'p'] {
        Some(TickStatus::Up)
    } else if text == seq!['d', 'o', 'w', 'n'] {
        Some(TickStatus::Down)
    } else {
        None
    }
}

/// Reads a status as reports spell it: `up` or `down`, nothing else.
pub fn parse_status(text: &str) -> (status: Option<TickStatus>)
    ensures
        status == status_of(text@),
{
    let n = text.unicode_len();
    if n == 2 && text.get_char(0) == 'u' && text.get_char(1) == 'p' {
        assert(text@ =~= seq!['u', 'p']);
        Some(TickStatus::Up)
    } else if n == 4 && text.get_char(0) == 'd' && text.get_char(1) == 'o' && text.get_char(2)
        == 'w' && text.get_char(3) == 'n' {
        assert(text@ =~= seq!['d', 'o', 'w', 'n']);
        Some(TickStatus::Down)
    } else {
        assert(text@ != seq!['u', 'p']) by {
            if text@ == seq!['u', 'p'] {
                assert(text@.len() == 2 && text@[0] == 'u' && text@[1] == 'p');
            }
        }
        assert(text@ != seq!['d', 'o', 'w', 'n']) by {
            if text@ == seq!['d', 'o', 'w', 'n'] {
                assert(text@.len() == 4 && text@[0] == 'd' && text@[1] == 'o' && text@[2] == 'w'
                    && text@[3] == 'n');
            }
        }
        None
    }
}

/// How a status is spelled in reports.
pub fn status_text(status: TickStatus) -> (text: &'static str)
    ensures
        status_of(text@) == Some(status),
{
    proof {
        reveal_strlit("up");
        reveal_strlit("down");
    }
    match status {
        TickStatus::Up => {
            assert("up"@ =~= seq!['u', 'p']);
            "up"
        },
        TickStatus::Down => {
            assert("down"@ =~= seq!['d', 'o', 'w', 'n']);
            "down"
        },
    }
}

/// Whether a tick is taken, given what is stored of its website and its
/// validator: the website has to be stored and not disabled, the validator
/// has to be stored.
pub open spec fn tick_admission(website_disabled: Option<bool>, validator_known: bool) -> Result<
    (),
    LedgerError,
> {
    if website_disabled == Some(false) && validator_known {
        Ok(())
    } else {
        Err(LedgerError::NotFound)
    }
}

/// Decides whether a tick is taken. `website_disabled` is `None` for a
/// website that is not stored.
pub fn admit_tick(website_disabled: Option<bool>, validator_known: bool) -> (r: Result<
    (),
    LedgerError,
>)
    ensures
        r == tick_admission(website_disabled, validator_known),
{
    match website_disabled {
        Some(false) => if validator_known {
            Ok(())
        } else {
            Err(LedgerError::NotFound)
        },
        _ => Err(LedgerError::NotFound),
    }
}

/// A balance with the reward for one tick added, `None` where the sum
/// leaves the range of the balance.
pub fn credit_tick(balance: u64) -> (credited: Option<u64>)
    ensures
        credited == if balance + REWARD_PER_TICK <= u64::MAX {
            Some((balance + REWARD_PER_TICK) as u64)
        } else {
            None
        },
{
    if balance > u64::MAX - REWARD_PER_TICK {
        None
    } else {
        Some(balance + REWARD_PER_TICK)
    }
}

impl LedgerState {
    /// The ledger step that one report asks for.
    pub open spec fn ingest(self, report: TickReport) -> (LedgerState, Result<u64, LedgerError>) {
        self.record_tick(
            report.website_id,
            report.validator_id,
            report.status,
            report.latency_ms,
            report.observed_at,
        )
    }

    /// The ledger after a sequence of reports, each ingested in turn.
    pub open spec fn ingest_all(self, reports: Seq<TickReport>) -> LedgerState
        decreases reports.len(),
    {
        if reports.len() == 0 {
            self
        } else {
            self.ingest_all(reports.drop_last()).ingest(reports.last()).0
        }
    }

    /// How many reports of the sequence are recorded.
    pub open spec fn recorded_count(self, reports: Seq<TickReport>) -> nat
        decreases reports.len(),
    {
        if reports.len() == 0 {
            0
        } else {
            self.recorded_count(reports.drop_last()) + if self.ingest_all(
                reports.drop_last(),
            ).ingest(reports.last()).1 is Ok {
                1nat
            } else {
                0nat
            }
        }
    }
}

/// Records one report and credits its validator. Refused with `NotFound`
/// for an unknown or disabled website or an unknown validator; a refused
/// report leaves no trace.
pub fn submit_tick(ledger: &mut Ledger, report: &TickReport) -> (r: Result<
    TickReceipt,
    LedgerError,
>)
    requires
        old(ledger).wf(),
    ensures
        final(ledger).wf(),
        final(ledger)@ == old(ledger)@.ingest(*report).0,
        match r {
            Ok(receipt) => {
                &&& old(ledger)@.ingest(*report).1 == Ok::<u64, LedgerError>(receipt.tick_id)
                &&& receipt.website_status == final(ledger)@.current_status(report.website_id)
                &&& receipt.pending_amount == old(ledger)@.pending(report.validator_id)
                    + REWARD_PER_TICK
                &&& receipt.pending_amount == final(ledger)@.pending(report.validator_id)
            },
            Err(e) => old(ledger)@.ingest(*report).1 == Err::<u64, LedgerError>(e),
        },
{
    let tick_id = match ledger.record_tick(
        report.website_id,
        report.validator_id,
        report.status,
        report.latency_ms,
        report.observed_at,
    ) {
        Ok(tick_id) => tick_id,
        Err(e) => {
            return Err(e);
        },
    };
    proof {
        let before = old(ledger)@;
        let v = before.validator_at(report.validator_id);
        before.lemma_validator_found(report.validator_id);
        before.lemma_validator_at(v);
        ledger@.lemma_validator_at(v);
    }
    let website_status = ledger.current_status(report.website_id);
    let pending_amount = match ledger.pending_amount(report.validator_id) {
        Some(amount) => amount,
        None => 0,
    };
    Ok(TickReceipt { tick_id, website_status, pending_amount })
}

/// HTTP status of the answer to a tick report: 201 once recorded, 404 for
/// an unknown or disabled website or an unknown validator, 500 for any
/// other refusal.
pub fn tick_status_code(refusal: Option<LedgerError>) -> (code: u16)
    ensures
        code == match refusal {
            None => 201u16,
            Some(LedgerError::NotFound) => 404u16,
            Some(_) => 500u16,
        },
{
    match refusal {
        None => 201,
        Some(LedgerError::NotFound) => 404,
        Some(_) => 500,
    }
}

} // verus!
