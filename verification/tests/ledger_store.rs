use uptime_ledger::ledger::Ledger;
use uptime_ledger::records::{
    IntentState, LedgerError, Tick, TickStatus, WebsiteStatus, REWARD_PER_TICK,
};

fn small_ledger() -> Ledger {
    let mut ledger = Ledger::new();
    ledger.register_validator(7, "addr-7").unwrap();
    ledger.register_validator(8, "addr-8").unwrap();
    ledger.create_website(1, "https://one.example", 100, false).unwrap();
    ledger.create_website(2, "https://two.example", 100, true).unwrap();
    ledger.create_website(3, "https://three.example", 200, false).unwrap();
    ledger
}

#[test]
fn reward_per_tick_is_one_hundred() {
    assert_eq!(REWARD_PER_TICK, 100);
}

#[test]
fn record_tick_returns_consecutive_ids_and_credits_reporter() {
    let mut ledger = small_ledger();
    assert_eq!(ledger.record_tick(1, 7, TickStatus::Up, 12, 1_000), Ok(0));
    assert_eq!(ledger.record_tick(3, 7, TickStatus::Down, 0, 1_001), Ok(1));
    assert_eq!(ledger.record_tick(1, 8, TickStatus::Up, 40, 1_002), Ok(2));
    assert_eq!(ledger.pending_amount(7), Some(200));
    assert_eq!(ledger.pending_amount(8), Some(100));
    assert_eq!(ledger.tick_count(), 3);
}

#[test]
fn record_tick_rejects_unknown_website() {
    let mut ledger = small_ledger();
    assert_eq!(ledger.record_tick(99, 7, TickStatus::Up, 12, 1_000), Err(LedgerError::NotFound));
    assert_eq!(ledger.pending_amount(7), Some(0));
    assert_eq!(ledger.tick_count(), 0);
}

#[test]
fn record_tick_rejects_unknown_validator() {
    let mut ledger = small_ledger();
    assert_eq!(ledger.record_tick(1, 99, TickStatus::Up, 12, 1_000), Err(LedgerError::NotFound));
    assert_eq!(ledger.pending_amount(99), None);
    assert_eq!(ledger.tick_count(), 0);
}

#[test]
fn record_tick_rejects_disabled_website() {
    let mut ledger = small_ledger();
    assert_eq!(ledger.record_tick(2, 7, TickStatus::Up, 12, 1_000), Err(LedgerError::NotFound));
    assert_eq!(ledger.disable_website(1, 100), Ok(()));
    assert_eq!(ledger.record_tick(1, 7, TickStatus::Up, 12, 1_000), Err(LedgerError::NotFound));
    assert_eq!(ledger.pending_amount(7), Some(0));
}

#[test]
fn duplicate_report_adds_another_tick_and_credit() {
    let mut ledger = small_ledger();
    assert_eq!(ledger.record_tick(1, 7, TickStatus::Up, 12, 1_000), Ok(0));
    assert_eq!(ledger.record_tick(1, 7, TickStatus::Up, 12, 1_000), Ok(1));
    assert_eq!(ledger.pending_amount(7), Some(200));
}

#[test]
fn duplicate_identifiers_are_refused() {
    let mut ledger = small_ledger();
    assert_eq!(ledger.register_validator(7, "other"), Err(LedgerError::AlreadyExists));
    assert_eq!(
        ledger.create_website(1, "https://again.example", 5, false),
        Err(LedgerError::AlreadyExists)
    );
    assert_eq!(ledger.websites_of(5).len(), 0);
}

#[test]
fn current_status_is_unknown_without_ticks() {
    let ledger = small_ledger();
    assert_eq!(ledger.current_status(1), WebsiteStatus::Unknown);
    assert_eq!(ledger.current_status(99), WebsiteStatus::Unknown);
}

#[test]
fn current_status_follows_latest_timestamp_not_arrival_order() {
    let mut ledger = small_ledger();
    ledger.record_tick(1, 7, TickStatus::Up, 30, 2_000).unwrap();
    ledger.record_tick(1, 8, TickStatus::Down, 0, 1_500).unwrap();
    ledger.record_tick(3, 8, TickStatus::Down, 5, 9_000).unwrap();
    assert_eq!(
        ledger.current_status(1),
        WebsiteStatus::Known { status: TickStatus::Up, latency: 30, last_seen: 2_000 }
    );
}

#[test]
fn current_status_breaks_timestamp_ties_by_insertion() {
    let mut ledger = small_ledger();
    ledger.record_tick(1, 7, TickStatus::Up, 30, 2_000).unwrap();
    ledger.record_tick(1, 8, TickStatus::Down, 77, 2_000).unwrap();
    assert_eq!(
        ledger.current_status(1),
        WebsiteStatus::Known { status: TickStatus::Down, latency: 77, last_seen: 2_000 }
    );
}

#[test]
fn ticks_of_lists_a_websites_ticks_in_insertion_order() {
    let mut ledger = small_ledger();
    ledger.record_tick(1, 7, TickStatus::Up, 30, 2_000).unwrap();
    ledger.record_tick(3, 7, TickStatus::Up, 31, 2_001).unwrap();
    ledger.record_tick(1, 8, TickStatus::Down, 32, 1_999).unwrap();
    assert_eq!(
        ledger.ticks_of(1),
        vec![
            Tick {
                id: 0,
                website_id: 1,
                validator_id: 7,
                timestamp: 2_000,
                status: TickStatus::Up,
                latency: 30
            },
            Tick {
                id: 2,
                website_id: 1,
                validator_id: 8,
                timestamp: 1_999,
                status: TickStatus::Down,
                latency: 32
            },
        ]
    );
    assert_eq!(ledger.ticks_of(2), vec![]);
}

#[test]
fn websites_of_skips_disabled_and_foreign_websites() {
    let ledger = small_ledger();
    let mine = ledger.websites_of(100);
    assert_eq!(mine.len(), 1);
    assert_eq!(mine[0].id, 1);
    assert_eq!(mine[0].url, "https://one.example");
    assert_eq!(ledger.websites_of(200).len(), 1);
    assert_eq!(ledger.websites_of(300).len(), 0);
}

#[test]
fn website_for_requires_owner_and_enabled() {
    let ledger = small_ledger();
    assert_eq!(ledger.website_for(1, 100).map(|w| w.url), Some("https://one.example".to_string()));
    assert_eq!(ledger.website_for(1, 200), None);
    assert_eq!(ledger.website_for(2, 100), None);
    assert_eq!(ledger.website_for(99, 100), None);
}

#[test]
fn disable_website_needs_the_owner() {
    let mut ledger = small_ledger();
    assert_eq!(ledger.disable_website(1, 200), Err(LedgerError::NotFound));
    assert_eq!(ledger.disable_website(99, 100), Err(LedgerError::NotFound));
    assert_eq!(ledger.disable_website(1, 100), Ok(()));
    assert_eq!(ledger.disable_website(1, 100), Ok(()));
    assert_eq!(ledger.website_for(1, 100), None);
}

#[test]
fn lock_is_exclusive_per_validator() {
    let mut ledger = small_ledger();
    ledger.record_tick(1, 7, TickStatus::Up, 30, 2_000).unwrap();
    let snapshot = ledger.lock_validator_for_settlement(7).unwrap();
    assert_eq!(snapshot.validator_id, 7);
    assert_eq!(snapshot.address, "addr-7");
    assert_eq!(snapshot.pending_amount, 100);
    assert_eq!(ledger.lock_validator_for_settlement(7), Err(LedgerError::Conflict));
    assert!(ledger.lock_validator_for_settlement(8).is_ok());
    assert_eq!(ledger.lock_validator_for_settlement(99), Err(LedgerError::NotFound));
    assert_eq!(ledger.release_validator_lock(7), Ok(()));
    assert_eq!(ledger.release_validator_lock(7), Err(LedgerError::NotLocked));
    assert_eq!(ledger.release_validator_lock(99), Err(LedgerError::NotFound));
    assert!(ledger.lock_validator_for_settlement(7).is_ok());
}

#[test]
fn ticks_are_recorded_while_validator_is_locked() {
    let mut ledger = small_ledger();
    ledger.lock_validator_for_settlement(7).unwrap();
    assert_eq!(ledger.record_tick(1, 7, TickStatus::Up, 30, 2_000), Ok(0));
    assert_eq!(ledger.pending_amount(7), Some(100));
}

#[test]
fn write_intent_needs_lock_and_valid_amount() {
    let mut ledger = small_ledger();
    ledger.record_tick(1, 7, TickStatus::Up, 30, 2_000).unwrap();
    assert_eq!(ledger.write_intent(99, 100, 5), Err(LedgerError::NotFound));
    assert_eq!(ledger.write_intent(7, 100, 5), Err(LedgerError::NotLocked));
    ledger.lock_validator_for_settlement(7).unwrap();
    assert_eq!(ledger.write_intent(7, 0, 5), Err(LedgerError::InvalidAmount));
    assert_eq!(ledger.write_intent(7, 101, 5), Err(LedgerError::InvalidAmount));
    assert_eq!(ledger.write_intent(7, 100, 5), Ok(0));
    assert_eq!(ledger.write_intent(7, 100, 6), Err(LedgerError::Conflict));
    let intent = ledger.intent(0).unwrap();
    assert_eq!(intent.id, 0);
    assert_eq!(intent.validator_id, 7);
    assert_eq!(intent.amount, 100);
    assert_eq!(intent.state, IntentState::Created);
    assert_eq!(intent.external_transfer_id, None);
    assert_eq!(intent.failure_reason, None);
    assert_eq!(intent.created_at, 5);
    assert_eq!(ledger.in_flight_intent(7), Some(0));
    assert_eq!(ledger.in_flight_intent(8), None);
    assert_eq!(ledger.pending_amount(7), Some(100));
}

#[test]
fn intent_transitions_follow_the_state_machine() {
    let mut ledger = small_ledger();
    ledger.record_tick(1, 7, TickStatus::Up, 30, 2_000).unwrap();
    ledger.lock_validator_for_settlement(7).unwrap();
    ledger.write_intent(7, 100, 5).unwrap();
    assert_eq!(ledger.mark_intent_submitted(9), Err(LedgerError::NotFound));
    assert_eq!(ledger.mark_intent_confirmed(9, "T"), Err(LedgerError::NotFound));
    assert_eq!(ledger.mark_intent_failed(9, "why"), Err(LedgerError::NotFound));
    assert_eq!(ledger.mark_intent_confirmed(0, "T"), Err(LedgerError::InvalidTransition));
    assert_eq!(ledger.mark_intent_failed(0, "why"), Err(LedgerError::InvalidTransition));
    assert_eq!(ledger.mark_intent_submitted(0), Ok(()));
    assert_eq!(ledger.mark_intent_submitted(0), Err(LedgerError::InvalidTransition));
    assert_eq!(ledger.intent(0).unwrap().state, IntentState::Submitted);
    assert_eq!(ledger.mark_intent_failed(0, "refused"), Ok(()));
    let failed = ledger.intent(0).unwrap();
    assert_eq!(failed.state, IntentState::Failed);
    assert_eq!(failed.failure_reason, Some("refused".to_string()));
    assert_eq!(failed.external_transfer_id, None);
    assert_eq!(ledger.mark_intent_confirmed(0, "T"), Err(LedgerError::InvalidTransition));
    assert_eq!(ledger.mark_intent_failed(0, "again"), Err(LedgerError::InvalidTransition));
    assert_eq!(ledger.pending_amount(7), Some(100));
    assert_eq!(ledger.in_flight_intent(7), None);
}

#[test]
fn confirmation_takes_the_captured_amount_not_the_live_balance() {
    let mut ledger = small_ledger();
    for n in 0..5 {
        ledger.record_tick(1, 7, TickStatus::Up, 30, 2_000 + n).unwrap();
    }
    ledger.lock_validator_for_settlement(7).unwrap();
    assert_eq!(ledger.write_intent(7, 500, 5), Ok(0));
    ledger.release_validator_lock(7).unwrap();
    ledger.mark_intent_submitted(0).unwrap();
    ledger.record_tick(1, 7, TickStatus::Up, 30, 3_000).unwrap();
    ledger.record_tick(1, 7, TickStatus::Up, 30, 3_001).unwrap();
    assert_eq!(ledger.pending_amount(7), Some(700));
    assert_eq!(ledger.mark_intent_confirmed(0, "T1"), Ok(()));
    assert_eq!(ledger.pending_amount(7), Some(200));
    let intent = ledger.intent(0).unwrap();
    assert_eq!(intent.state, IntentState::Confirmed);
    assert_eq!(intent.external_transfer_id, Some("T1".to_string()));
    assert_eq!(intent.amount, 500);
    assert_eq!(ledger.intent_count(), 1);
}

#[test]
fn intent_state_flags() {
    assert!(IntentState::Created.is_in_flight());
    assert!(IntentState::Submitted.is_in_flight());
    assert!(IntentState::Confirmed.is_terminal());
    assert!(IntentState::Failed.is_terminal());
    assert!(!IntentState::Failed.is_in_flight());
    assert!(!IntentState::Created.is_terminal());
}

#[test]
fn history_orders_ticks_by_timestamp_then_identifier() {
    let mut ledger = small_ledger();
    ledger.record_tick(1, 7, TickStatus::Up, 1, 300).unwrap();
    ledger.record_tick(1, 8, TickStatus::Up, 2, 100).unwrap();
    ledger.record_tick(3, 8, TickStatus::Up, 3, 50).unwrap();
    ledger.record_tick(1, 7, TickStatus::Down, 4, 300).unwrap();
    ledger.record_tick(1, 8, TickStatus::Up, 5, 200).unwrap();
    ledger.record_tick(1, 7, TickStatus::Up, 6, 100).unwrap();
    let ids: Vec<u64> = ledger.history(1).iter().map(|t| t.id).collect();
    assert_eq!(ids, vec![1, 5, 4, 0, 3]);
    let stamps: Vec<i64> = ledger.history(1).iter().map(|t| t.timestamp).collect();
    assert_eq!(stamps, vec![100, 100, 200, 300, 300]);
    assert_eq!(ledger.history(2), vec![]);
    assert_eq!(ledger.history(3).len(), 1);
    let last = *ledger.history(1).last().unwrap();
    assert_eq!(
        ledger.current_status(1),
        WebsiteStatus::Known {
            status: last.status,
            latency: last.latency,
            last_seen: last.timestamp
        }
    );
}
