use uptime_ledger::ledger::Ledger;
use uptime_ledger::rail::{
    found_or_missing, Audited, Lookup, MockAnswer, MockRail, PaymentRail, RailError,
};
use uptime_ledger::reconcile::{
    decide_reconciliation, reconcile, reconcile_all, reconcile_with, ReconcileAlert,
    ReconciledIntent, Reconciliation,
};
use uptime_ledger::records::{IntentState, LedgerError, TickStatus};
use uptime_ledger::settlement::settle;

fn ledger_with_two_validators() -> Ledger {
    let mut ledger = Ledger::new();
    ledger.register_validator(7, "addr-7").unwrap();
    ledger.register_validator(8, "addr-8").unwrap();
    ledger.create_website(1, "https://one.example", 100, false).unwrap();
    for n in 0..3 {
        ledger.record_tick(1, 7, TickStatus::Up, 20, n).unwrap();
    }
    for n in 0..2 {
        ledger.record_tick(1, 8, TickStatus::Up, 20, n).unwrap();
    }
    ledger
}

#[test]
fn reconciliation_decisions() {
    assert_eq!(
        decide_reconciliation(Lookup::Found("T".to_string()), 100, 100, 60),
        Reconciliation::Confirmed { transfer_id: "T".to_string() }
    );
    assert_eq!(decide_reconciliation(Lookup::Missing, 100, 159, 60), Reconciliation::StillSubmitted);
    assert_eq!(
        decide_reconciliation(Lookup::Missing, 100, 160, 60),
        Reconciliation::Abandoned { alert: ReconcileAlert::GracePeriodExpired }
    );
    assert_eq!(
        decide_reconciliation(Lookup::Missing, 100, 100, 0),
        Reconciliation::Abandoned { alert: ReconcileAlert::GracePeriodExpired }
    );
    assert_eq!(
        decide_reconciliation(Lookup::Unsupported, 100, 100, 60),
        Reconciliation::Abandoned { alert: ReconcileAlert::LookupUnsupported }
    );
    assert_eq!(
        decide_reconciliation(Lookup::Missing, i64::MIN, i64::MAX, u64::MAX),
        Reconciliation::Abandoned { alert: ReconcileAlert::GracePeriodExpired }
    );
    assert_eq!(
        decide_reconciliation(Lookup::Missing, i64::MIN + 1, i64::MAX, u64::MAX),
        Reconciliation::StillSubmitted
    );
    assert_eq!(
        decide_reconciliation(Lookup::Missing, i64::MAX, i64::MIN, 0),
        Reconciliation::StillSubmitted
    );
}

#[test]
fn alert_reasons() {
    assert_eq!(
        ReconcileAlert::GracePeriodExpired.reason_text(),
        "no matching transfer found within the grace period"
    );
    assert_eq!(
        ReconcileAlert::LookupUnsupported.reason_text(),
        "payment rail cannot look transfers up"
    );
}

#[test]
fn reconcile_without_lookup_fails_intent_with_distinct_alert() {
    let mut ledger = ledger_with_two_validators();
    let mut script = MockRail::new(false);
    script.script(MockAnswer::TimeoutAfterSend("T1".to_string()));
    let mut rail = Audited::new(script);
    assert!(settle(&mut ledger, &mut rail, 7, 10).is_err());
    let outcome = reconcile(&mut ledger, &mut rail, 0, 11, 3_600);
    assert_eq!(
        outcome,
        Ok(Reconciliation::Abandoned { alert: ReconcileAlert::LookupUnsupported })
    );
    let intent = ledger.intent(0).unwrap();
    assert_eq!(intent.state, IntentState::Failed);
    assert_eq!(intent.failure_reason, Some("payment rail cannot look transfers up".to_string()));
    assert_eq!(ledger.pending_amount(7), Some(300));
}

#[test]
fn reconcile_refuses_unknown_and_finished_intents() {
    let mut ledger = ledger_with_two_validators();
    let mut script = MockRail::new(true);
    script.script(MockAnswer::Confirm("T1".to_string()));
    let mut rail = Audited::new(script);
    assert_eq!(reconcile(&mut ledger, &mut rail, 0, 11, 60), Err(LedgerError::NotFound));
    assert!(settle(&mut ledger, &mut rail, 7, 10).is_ok());
    assert_eq!(reconcile(&mut ledger, &mut rail, 0, 11, 60), Err(LedgerError::InvalidTransition));
    assert_eq!(ledger.pending_amount(7), Some(0));
}

#[test]
fn reconcile_submits_an_intent_that_was_only_created() {
    let mut ledger = ledger_with_two_validators();
    ledger.lock_validator_for_settlement(7).unwrap();
    ledger.write_intent(7, 300, 50).unwrap();
    ledger.release_validator_lock(7).unwrap();
    let waited = reconcile_with(&mut ledger, 0, Lookup::Missing, 60, 100);
    assert_eq!(waited, Ok(Reconciliation::StillSubmitted));
    assert_eq!(ledger.intent(0).unwrap().state, IntentState::Submitted);
    let found = reconcile_with(&mut ledger, 0, Lookup::Found("T5".to_string()), 61, 100);
    assert_eq!(found, Ok(Reconciliation::Confirmed { transfer_id: "T5".to_string() }));
    assert_eq!(ledger.pending_amount(7), Some(0));
    assert_eq!(ledger.intent(0).unwrap().external_transfer_id, Some("T5".to_string()));
}

#[test]
fn reconciliation_pass_handles_every_in_flight_intent() {
    let mut ledger = ledger_with_two_validators();
    let mut script = MockRail::new(true);
    script.script(MockAnswer::TimeoutAfterSend("T-7".to_string()));
    script.script(MockAnswer::Timeout);
    let mut rail = Audited::new(script);
    assert!(settle(&mut ledger, &mut rail, 7, 1_000).is_err());
    assert!(settle(&mut ledger, &mut rail, 8, 1_000).is_err());
    let early = reconcile_all(&mut ledger, &mut rail, 1_010, 60);
    assert_eq!(
        early,
        vec![
            ReconciledIntent {
                intent_id: 0,
                outcome: Reconciliation::Confirmed { transfer_id: "T-7".to_string() }
            },
            ReconciledIntent { intent_id: 1, outcome: Reconciliation::StillSubmitted },
        ]
    );
    assert_eq!(ledger.pending_amount(7), Some(0));
    assert_eq!(ledger.pending_amount(8), Some(200));
    let late = reconcile_all(&mut ledger, &mut rail, 1_060, 60);
    assert_eq!(
        late,
        vec![ReconciledIntent {
            intent_id: 1,
            outcome: Reconciliation::Abandoned { alert: ReconcileAlert::GracePeriodExpired }
        }]
    );
    assert_eq!(ledger.intent(1).unwrap().state, IntentState::Failed);
    assert_eq!(ledger.pending_amount(8), Some(200));
    assert_eq!(reconcile_all(&mut ledger, &mut rail, 2_000, 60), vec![]);
    assert_eq!(rail.rail().call_count(), 2);
}

#[test]
fn settlement_resumes_after_reconciliation() {
    let mut ledger = ledger_with_two_validators();
    let mut script = MockRail::new(true);
    script.script(MockAnswer::Timeout);
    script.script(MockAnswer::Confirm("T2".to_string()));
    let mut rail = Audited::new(script);
    assert!(settle(&mut ledger, &mut rail, 7, 1_000).is_err());
    reconcile(&mut ledger, &mut rail, 0, 2_000, 60).unwrap();
    let retried = settle(&mut ledger, &mut rail, 7, 2_001);
    assert_eq!(
        retried,
        Ok(uptime_ledger::settlement::SettleOutcome::Settled {
            intent_id: 1,
            amount: 300,
            transfer_id: "T2".to_string()
        })
    );
}

#[test]
fn mock_rail_follows_its_script_and_records_calls() {
    let mut rail = MockRail::new(true);
    rail.script(MockAnswer::Confirm("A".to_string()));
    rail.script(MockAnswer::Reject("nope".to_string()));
    rail.script(MockAnswer::Timeout);
    rail.script(MockAnswer::TimeoutAfterSend("D".to_string()));
    assert_eq!(rail.transfer("x", 1, "k1"), Ok("A".to_string()));
    assert_eq!(rail.transfer("y", 2, "k2"), Err(RailError::Rejected("nope".to_string())));
    assert_eq!(rail.transfer("z", 3, "k3"), Err(RailError::Transient));
    assert_eq!(rail.transfer("w", 4, "k4"), Err(RailError::Transient));
    assert_eq!(
        rail.transfer("v", 5, "k5"),
        Err(RailError::Rejected("no answer scripted".to_string()))
    );
    assert_eq!(rail.call_count(), 5);
    let third = rail.call(2).unwrap();
    assert_eq!(third.address, "z");
    assert_eq!(third.amount, 3);
    assert_eq!(third.idempotency_key, "k3");
    assert_eq!(rail.call(5), None);
    assert!(rail.supports_lookup());
    assert_eq!(rail.lookup("k1"), Some("A".to_string()));
    assert_eq!(rail.lookup("k2"), None);
    assert_eq!(rail.lookup("k3"), None);
    assert_eq!(rail.lookup("k4"), Some("D".to_string()));
    assert_eq!(rail.lookup("k"), None);
    let mut blind = MockRail::new(false);
    blind.script(MockAnswer::Confirm("A".to_string()));
    assert_eq!(blind.transfer("x", 1, "k1"), Ok("A".to_string()));
    assert!(!blind.supports_lookup());
    assert_eq!(blind.lookup("k1"), None);
    let mut audited = Audited::new(blind);
    assert_eq!(audited.lookup("k1"), Lookup::Unsupported);
}

#[test]
fn lookup_answers() {
    assert_eq!(found_or_missing(Some("T".to_string())), Lookup::Found("T".to_string()));
    assert_eq!(found_or_missing(None), Lookup::Missing);
}

#[test]
fn audited_rail_passes_calls_through() {
    let mut script = MockRail::new(true);
    script.script(MockAnswer::Confirm("A".to_string()));
    let mut rail = Audited::new(script);
    assert_eq!(rail.lookup("k1"), Lookup::Missing);
    assert_eq!(rail.transfer("x", 1, "k1"), Ok("A".to_string()));
    assert_eq!(rail.lookup("k1"), Lookup::Found("A".to_string()));
    assert_eq!(rail.rail().call_count(), 1);
    let inner = rail.into_rail();
    assert_eq!(inner.call(0).unwrap().amount, 1);
}

#[test]
fn audited_rail_remembers_whether_the_rail_looks_up() {
    let mut able = Audited::new(MockRail::new(true));
    assert!(able.can_look_up());
    assert_eq!(able.lookup("k"), Lookup::Missing);
    let mut script = MockRail::new(false);
    script.script(MockAnswer::TimeoutAfterSend("T".to_string()));
    let mut unable = Audited::new(script);
    assert!(!unable.can_look_up());
    assert_eq!(unable.transfer("x", 1, "k"), Err(RailError::Transient));
    assert_eq!(unable.lookup("k"), Lookup::Unsupported);
    assert!(!unable.can_look_up());
}

#[test]
fn reconcile_on_a_rail_without_lookup_gives_up_inside_the_grace_period() {
    let mut ledger = ledger_with_two_validators();
    let mut script = MockRail::new(false);
    script.script(MockAnswer::Timeout);
    let mut rail = Audited::new(script);
    assert!(settle(&mut ledger, &mut rail, 7, 1_000).is_err());
    assert_eq!(
        reconcile(&mut ledger, &mut rail, 0, 1_001, 3_600),
        Ok(Reconciliation::Abandoned { alert: ReconcileAlert::LookupUnsupported })
    );
    assert_eq!(ledger.intent(0).unwrap().state, IntentState::Failed);
    assert_eq!(ledger.pending_amount(7), Some(300));
}

#[test]
fn reconcile_confirms_what_the_rail_holds_and_waits_for_what_it_does_not() {
    let mut ledger = ledger_with_two_validators();
    let mut script = MockRail::new(true);
    script.script(MockAnswer::TimeoutAfterSend("T-7".to_string()));
    script.script(MockAnswer::Timeout);
    let mut rail = Audited::new(script);
    assert!(settle(&mut ledger, &mut rail, 7, 1_000).is_err());
    assert!(settle(&mut ledger, &mut rail, 8, 1_000).is_err());
    assert_eq!(
        reconcile(&mut ledger, &mut rail, 0, 1_001, 3_600),
        Ok(Reconciliation::Confirmed { transfer_id: "T-7".to_string() })
    );
    assert_eq!(
        reconcile(&mut ledger, &mut rail, 1, 1_001, 3_600),
        Ok(Reconciliation::StillSubmitted)
    );
    assert_eq!(ledger.pending_amount(7), Some(0));
    assert_eq!(ledger.pending_amount(8), Some(200));
}

#[test]
fn reconciliation_pass_without_lookup_gives_up_every_intent_in_flight() {
    let mut ledger = ledger_with_two_validators();
    let mut script = MockRail::new(false);
    script.script(MockAnswer::Timeout);
    script.script(MockAnswer::TimeoutAfterSend("T".to_string()));
    let mut rail = Audited::new(script);
    assert!(settle(&mut ledger, &mut rail, 7, 1_000).is_err());
    assert!(settle(&mut ledger, &mut rail, 8, 1_000).is_err());
    let report = reconcile_all(&mut ledger, &mut rail, 1_001, 3_600);
    assert_eq!(
        report,
        vec![
            ReconciledIntent {
                intent_id: 0,
                outcome: Reconciliation::Abandoned { alert: ReconcileAlert::LookupUnsupported }
            },
            ReconciledIntent {
                intent_id: 1,
                outcome: Reconciliation::Abandoned { alert: ReconcileAlert::LookupUnsupported }
            },
        ]
    );
    assert_eq!(ledger.pending_amount(7), Some(300));
    assert_eq!(ledger.pending_amount(8), Some(200));
}
