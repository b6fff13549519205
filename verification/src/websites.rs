//! What the owner of a website may ask of the ledger: to add a website, to
//! see one or all of them with their ticks, and to take one out of
//! monitoring.

use vstd::prelude::*;
use crate::ledger::Ledger;
use crate::models::{UserIdQuery, Website, WebsiteQuery};
use crate::records::{LedgerError, Tick, WebsiteRecord, WebsiteStatus, WebsiteView};
use crate::state::{status_at_end, LedgerState};

verus! {

/// A website with everything that was observed of it.
#[derive(Clone, Debug, PartialEq, Eq)]
pub struct WebsiteReport {
    pub website: WebsiteRecord,
    /// Its ticks, ordered by timestamp and, among equal timestamps, by
    /// identifier.
    pub ticks: Vec<Tick>,
    /// Its status as the most recent tick gives it.
    pub status: WebsiteStatus,
}

/// `WebsiteReport` as a mathematical value: texts are sequences of characters.
pub struct WebsiteReportView {
    pub website: WebsiteView,
    pub ticks: Seq<Tick>,
    pub status: WebsiteStatus,
}

impl View for WebsiteReport {
    type V = WebsiteReportView;

    open spec fn view(&self) -> WebsiteReportView {
        WebsiteReportView { website: self.website@, ticks: self.ticks@, status: self.status }
    }
}

impl LedgerState {
    /// Whether `report` is the report on the stored website `website`: it
    /// holds the website, its ticks in time order, and the status that the
    /// latest of them gives.
    pub open spec fn is_report_on(self, website: WebsiteView, report: WebsiteReportView) -> bool {
        &&& report.website == website
        &&& self.is_history_of(website.id, report.ticks)
        &&& report.status == self.current_status(website.id)
    }
}

/// The status of a website, read off its history: that of the last tick,
/// unknown where there is none.
pub fn latest_status(history: &Vec<Tick>) -> (status: WebsiteStatus)
    ensures
        status == status_at_end(history@),
{
    if history.len() == 0 {
        WebsiteStatus::Unknown
    } else {
        let last = history[history.len() - 1];
        WebsiteStatus::Known {
            status: last.status,
            latency: last.latency,
            last_seen: last.timestamp,
        }
    }
}

/// Stores the website that an owner submits under the identifier `id`.
pub fn create_website(ledger: &mut Ledger, id: u128, website: &Website) -> (r: Result<
    (),
    LedgerError,
>)
    requires
        old(ledger).wf(),
    ensures
        final(ledger).wf(),
        (final(ledger)@, r) == old(ledger)@.add_website(
            id,
            website.url@,
            website.user_id,
            website.disabled,
        ),
{
    ledger.create_website(id, website.url.as_str(), website.user_id, website.disabled)
}

/// One website of a user with its ticks and status, unless the website is
/// not stored, is someone else's, or is disabled.
pub fn get_website_status(ledger: &Ledger, query: &WebsiteQuery) -> (found: Option<WebsiteReport>)
    requires
        ledger.wf(),
    ensures
        match found {
            Some(report) => ledger@.website_for(query.id, query.user_id) matches Some(website)
                && ledger@.is_report_on(website, report@),
            None => ledger@.website_for(query.id, query.user_id) is None,
        },
{
    match ledger.website_for(query.id, query.user_id) {
        Some(website) => {
            let ticks = ledger.history(website.id);
            let status = ledger.current_status(website.id);
            Some(WebsiteReport { website, ticks, status })
        },
        None => None,
    }
}

/// All websites of a user that are not disabled, each with its ticks and
/// status, in stored order.
pub fn get_websites(ledger: &Ledger, query: &UserIdQuery) -> (reports: Vec<WebsiteReport>)
    requires
        ledger.wf(),
    ensures
        reports@.len() == ledger@.websites_of(query.user_id).len(),
        forall|i: int|
            0 <= i < reports@.len() ==> ledger@.is_report_on(
                ledger@.websites_of(query.user_id)[i],
                (#[trigger] reports@[i])@,
            ),
{
    let websites = ledger.websites_of(query.user_id);
    let ghost listed = ledger@.websites_of(query.user_id);
    let mut reports: Vec<WebsiteReport> = Vec::new();
    let n = websites.len();
    let mut i: usize = 0;
    while i < n
        invariant
            i <= n,
            n == listed.len(),
            ledger.wf(),
            websites@.len() == n,
            forall|k: int| i <= k < n ==> (#[trigger] websites@[k])@ == listed[k],
            reports@.len() == i,
            forall|k: int|
                0 <= k < i ==> ledger@.is_report_on(listed[k], (#[trigger] reports@[k])@),
        decreases n - i,
    {
        let website = copy_of(&websites[i]);
        let ticks = ledger.history(website.id);
        let status = ledger.current_status(website.id);
        reports.push(WebsiteReport { website, ticks, status });
        i = i + 1;
    }
    reports
}

fn copy_of(website: &WebsiteRecord) -> (r: WebsiteRecord)
    ensures
        r@ == website@,
{
    WebsiteRecord {
        id: website.id,
        url: website.url.clone(),
        user_id: website.user_id,
        disabled: website.disabled,
    }
}

/// Takes a website of a user out of monitoring and returns its identifier.
/// Its ticks stay.
pub fn delete_website(ledger: &mut Ledger, query: &WebsiteQuery) -> (r: Result<u128, LedgerError>)
    requires
        old(ledger).wf(),
    ensures
        final(ledger).wf(),
        final(ledger)@ == old(ledger)@.disable_website(query.id, query.user_id).0,
        match r {
            Ok(id) => id == query.id && old(ledger)@.disable_website(query.id, query.user_id).1
                is Ok,
            Err(e) => old(ledger)@.disable_website(query.id, query.user_id).1 == Err::<
                (),
                LedgerError,
            >(e),
        },
{
    match ledger.disable_website(query.id, query.user_id) {
        Ok(()) => Ok(query.id),
        Err(e) => Err(e),
    }
}

/// HTTP status of the answer to a submitted website: 201 once stored, 500
/// otherwise.
pub fn created_status_code(r: &Result<(), LedgerError>) -> (code: u16)
    ensures
        code == if *r is Ok {
            201u16
        } else {
            500u16
        },
{
    match r {
        Ok(_) => 201,
        Err(_) => 500,
    }
}

/// HTTP status of the answer to a lookup or a removal: 200 when the website
/// was found, 404 otherwise.
pub fn found_status_code(found: bool) -> (code: u16)
    ensures
        code == if found {
            200u16
        } else {
            404u16
        },
{
    if found {
        200
    } else {
        404
    }
}

} // verus!
