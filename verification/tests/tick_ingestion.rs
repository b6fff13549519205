use uptime_ledger::ingest::{
    admit_tick, credit_tick, parse_status, status_text, submit_tick, tick_status_code,
    TickReceipt, TickReport,
};
use uptime_ledger::ledger::Ledger;
use uptime_ledger::records::{LedgerError, TickStatus, WebsiteStatus, REWARD_PER_TICK};

fn report(website_id: u128, validator_id: u128, observed_at: i64) -> TickReport {
    TickReport { website_id, validator_id, status: TickStatus::Up, latency_ms: 25, observed_at }
}

fn ingest_ledger() -> Ledger {
    let mut ledger = Ledger::new();
    ledger.register_validator(7, "addr-7").unwrap();
    ledger.register_validator(8, "addr-8").unwrap();
    ledger.register_validator(9, "addr-9").unwrap();
    ledger.create_website(1, "https://one.example", 100, false).unwrap();
    ledger.create_website(2, "https://two.example", 100, true).unwrap();
    ledger
}

#[test]
fn parse_status_reads_up_and_down_only() {
    assert_eq!(parse_status("up"), Some(TickStatus::Up));
    assert_eq!(parse_status("down"), Some(TickStatus::Down));
    assert_eq!(parse_status("Up"), None);
    assert_eq!(parse_status("DOWN"), None);
    assert_eq!(parse_status(""), None);
    assert_eq!(parse_status("upp"), None);
    assert_eq!(parse_status("dow"), None);
    assert_eq!(parse_status("u\u{70}\u{301}"), None);
}

#[test]
fn status_text_round_trips() {
    assert_eq!(status_text(TickStatus::Up), "up");
    assert_eq!(status_text(TickStatus::Down), "down");
    assert_eq!(parse_status(status_text(TickStatus::Up)), Some(TickStatus::Up));
    assert_eq!(parse_status(status_text(TickStatus::Down)), Some(TickStatus::Down));
}

#[test]
fn submit_tick_reports_id_status_and_balance() {
    let mut ledger = ingest_ledger();
    let first = submit_tick(&mut ledger, &report(1, 7, 1_000));
    assert_eq!(
        first,
        Ok(TickReceipt {
            tick_id: 0,
            website_status: WebsiteStatus::Known {
                status: TickStatus::Up,
                latency: 25,
                last_seen: 1_000
            },
            pending_amount: 100,
        })
    );
    let older = TickReport {
        website_id: 1,
        validator_id: 7,
        status: TickStatus::Down,
        latency_ms: 0,
        observed_at: 900,
    };
    let second = submit_tick(&mut ledger, &older).unwrap();
    assert_eq!(second.tick_id, 1);
    assert_eq!(second.pending_amount, 200);
    assert_eq!(
        second.website_status,
        WebsiteStatus::Known { status: TickStatus::Up, latency: 25, last_seen: 1_000 }
    );
    assert_eq!(tick_status_code(first.err()), 201);
}

#[test]
fn submit_tick_answers_404_for_unknown_or_disabled() {
    let mut ledger = ingest_ledger();
    let unknown_site = submit_tick(&mut ledger, &report(42, 7, 1_000));
    assert_eq!(unknown_site, Err(LedgerError::NotFound));
    assert_eq!(tick_status_code(unknown_site.err()), 404);
    let unknown_validator = submit_tick(&mut ledger, &report(1, 42, 1_000));
    assert_eq!(tick_status_code(unknown_validator.err()), 404);
    let disabled = submit_tick(&mut ledger, &report(2, 7, 1_000));
    assert_eq!(tick_status_code(disabled.err()), 404);
    assert_eq!(ledger.tick_count(), 0);
    assert_eq!(tick_status_code(Some(LedgerError::Exhausted)), 500);
    assert_eq!(tick_status_code(Some(LedgerError::Conflict)), 500);
    assert_eq!(tick_status_code(None), 201);
}

#[test]
fn credit_equals_reward_times_recorded_ticks_for_any_interleaving() {
    let mut ledger = ingest_ledger();
    let reports = vec![
        report(1, 7, 10),
        report(1, 8, 11),
        report(2, 7, 12),
        report(1, 7, 9),
        report(5, 8, 13),
        report(1, 99, 14),
        report(1, 9, 15),
        report(1, 7, 16),
        report(1, 8, 17),
    ];
    let mut recorded: u64 = 0;
    for r in reports.iter() {
        if submit_tick(&mut ledger, r).is_ok() {
            recorded += 1;
        }
    }
    assert_eq!(recorded, 6);
    assert_eq!(ledger.tick_count(), 6);
    let total: u64 = [7u128, 8, 9].iter().map(|v| ledger.pending_amount(*v).unwrap()).sum();
    assert_eq!(total, recorded * REWARD_PER_TICK);
    assert_eq!(ledger.pending_amount(7), Some(300));
    assert_eq!(ledger.pending_amount(8), Some(200));
    assert_eq!(ledger.pending_amount(9), Some(100));
}

#[test]
fn credit_does_not_depend_on_arrival_order() {
    let reports = vec![report(1, 7, 10), report(1, 8, 11), report(1, 7, 12), report(1, 9, 13)];
    let mut forward = ingest_ledger();
    for r in reports.iter() {
        submit_tick(&mut forward, r).unwrap();
    }
    let mut backward = ingest_ledger();
    for r in reports.iter().rev() {
        submit_tick(&mut backward, r).unwrap();
    }
    for v in [7u128, 8, 9] {
        assert_eq!(forward.pending_amount(v), backward.pending_amount(v));
    }
    assert_eq!(forward.current_status(1), backward.current_status(1));
}

#[test]
fn tick_admission_needs_enabled_website_and_known_validator() {
    assert_eq!(admit_tick(Some(false), true), Ok(()));
    assert_eq!(admit_tick(Some(true), true), Err(LedgerError::NotFound));
    assert_eq!(admit_tick(None, true), Err(LedgerError::NotFound));
    assert_eq!(admit_tick(Some(false), false), Err(LedgerError::NotFound));
    assert_eq!(admit_tick(None, false), Err(LedgerError::NotFound));
}

#[test]
fn credit_adds_one_reward_or_refuses_overflow() {
    assert_eq!(credit_tick(0), Some(100));
    assert_eq!(credit_tick(250), Some(350));
    assert_eq!(credit_tick(u64::MAX - 100), Some(u64::MAX));
    assert_eq!(credit_tick(u64::MAX - 99), None);
    assert_eq!(credit_tick(u64::MAX), None);
}
