use uptime_ledger::config::{get_config, Config};
use uptime_ledger::ledger::Ledger;
use uptime_ledger::models::{UserIdQuery, Website, WebsiteQuery};
use uptime_ledger::records::{LedgerError, TickStatus, WebsiteStatus};
use uptime_ledger::text::{push_decimal, push_padded};
use uptime_ledger::websites::{
    create_website, created_status_code, delete_website, found_status_code, get_website_status,
    get_websites, latest_status,
};

fn site(url: &str, user_id: u128) -> Website {
    Website { url: url.to_string(), user_id, disabled: false }
}

fn ledger_with_sites() -> Ledger {
    let mut ledger = Ledger::new();
    ledger.register_validator(7, "addr-7").unwrap();
    create_website(&mut ledger, 1, &site("https://one.example", 100)).unwrap();
    create_website(&mut ledger, 2, &site("https://two.example", 100)).unwrap();
    create_website(&mut ledger, 3, &site("https://three.example", 200)).unwrap();
    ledger.record_tick(1, 7, TickStatus::Up, 10, 50).unwrap();
    ledger.record_tick(2, 7, TickStatus::Down, 0, 51).unwrap();
    ledger.record_tick(1, 7, TickStatus::Down, 0, 52).unwrap();
    ledger.record_tick(1, 7, TickStatus::Up, 11, 40).unwrap();
    ledger
}

#[test]
fn create_website_answers_created_or_error() {
    let mut ledger = Ledger::new();
    let first = create_website(&mut ledger, 1, &site("https://one.example", 100));
    assert_eq!(first, Ok(()));
    assert_eq!(created_status_code(&first), 201);
    let again = create_website(&mut ledger, 1, &site("https://one.example", 100));
    assert_eq!(again, Err(LedgerError::AlreadyExists));
    assert_eq!(created_status_code(&again), 500);
}

#[test]
fn website_status_lists_ticks_and_latest_status() {
    let ledger = ledger_with_sites();
    let report = get_website_status(&ledger, &WebsiteQuery { id: 1, user_id: 100 }).unwrap();
    assert_eq!(report.website.id, 1);
    assert_eq!(report.website.url, "https://one.example");
    assert_eq!(report.website.user_id, 100);
    assert!(!report.website.disabled);
    assert_eq!(report.ticks.len(), 3);
    assert_eq!(report.ticks[0].id, 3);
    assert_eq!(report.ticks[1].id, 0);
    assert_eq!(report.ticks[2].id, 2);
    assert_eq!(
        report.status,
        WebsiteStatus::Known { status: TickStatus::Down, latency: 0, last_seen: 52 }
    );
}

#[test]
fn website_status_is_hidden_from_other_users() {
    let ledger = ledger_with_sites();
    assert_eq!(get_website_status(&ledger, &WebsiteQuery { id: 1, user_id: 200 }), None);
    assert_eq!(get_website_status(&ledger, &WebsiteQuery { id: 9, user_id: 100 }), None);
    assert_eq!(found_status_code(false), 404);
    assert_eq!(found_status_code(true), 200);
}

#[test]
fn websites_of_a_user_come_with_their_ticks() {
    let ledger = ledger_with_sites();
    let reports = get_websites(&ledger, &UserIdQuery { user_id: 100 });
    assert_eq!(reports.len(), 2);
    assert_eq!(reports[0].website.id, 1);
    assert_eq!(reports[0].ticks.len(), 3);
    assert_eq!(reports[0].ticks[0].timestamp, 40);
    assert_eq!(reports[1].website.id, 2);
    assert_eq!(reports[1].ticks.len(), 1);
    assert_eq!(
        reports[1].status,
        WebsiteStatus::Known { status: TickStatus::Down, latency: 0, last_seen: 51 }
    );
    let other = get_websites(&ledger, &UserIdQuery { user_id: 200 });
    assert_eq!(other.len(), 1);
    assert_eq!(other[0].ticks, vec![]);
    assert_eq!(other[0].status, WebsiteStatus::Unknown);
    assert_eq!(get_websites(&ledger, &UserIdQuery { user_id: 300 }), vec![]);
}

#[test]
fn deleted_website_disappears_and_keeps_its_ticks() {
    let mut ledger = ledger_with_sites();
    assert_eq!(delete_website(&mut ledger, &WebsiteQuery { id: 1, user_id: 200 }), Err(LedgerError::NotFound));
    assert_eq!(delete_website(&mut ledger, &WebsiteQuery { id: 1, user_id: 100 }), Ok(1));
    assert_eq!(get_website_status(&ledger, &WebsiteQuery { id: 1, user_id: 100 }), None);
    assert_eq!(get_websites(&ledger, &UserIdQuery { user_id: 100 }).len(), 1);
    assert_eq!(ledger.ticks_of(1).len(), 3);
    assert_eq!(ledger.record_tick(1, 7, TickStatus::Up, 1, 60), Err(LedgerError::NotFound));
    assert_eq!(ledger.pending_amount(7), Some(400));
}

#[test]
fn config_defaults_host_and_port() {
    assert_eq!(
        get_config(None, None, "key".to_string()),
        Config { host_port: "127.0.0.1:8000".to_string(), clerk_jwt_public_key: "key".to_string() }
    );
    assert_eq!(
        get_config(Some("0.0.0.0".to_string()), None, "key".to_string()).host_port,
        "0.0.0.0:8000"
    );
    assert_eq!(
        get_config(None, Some("3003".to_string()), "key".to_string()).host_port,
        "127.0.0.1:3003"
    );
    assert_eq!(
        get_config(Some("example.org".to_string()), Some("80".to_string()), String::new()),
        Config { host_port: "example.org:80".to_string(), clerk_jwt_public_key: String::new() }
    );
}

#[test]
fn decimal_text_of_integers() {
    let mut out = String::from("n=");
    push_decimal(&mut out, 0);
    out.push(',');
    push_decimal(&mut out, 907);
    out.push(',');
    push_decimal(&mut out, u64::MAX);
    assert_eq!(out, "n=0,907,18446744073709551615");
    let mut padded = String::new();
    push_padded(&mut padded, 42, 5);
    padded.push('|');
    push_padded(&mut padded, 123_456, 3);
    padded.push('|');
    push_padded(&mut padded, 7, 0);
    padded.push('|');
    push_padded(&mut padded, 0, 9);
    assert_eq!(padded, "00042|456||000000000");
}

#[test]
fn latest_status_is_that_of_the_last_tick_of_a_history() {
    let ledger = ledger_with_sites();
    assert_eq!(latest_status(&vec![]), WebsiteStatus::Unknown);
    assert_eq!(
        latest_status(&ledger.history(1)),
        WebsiteStatus::Known { status: TickStatus::Down, latency: 0, last_seen: 52 }
    );
    assert_eq!(latest_status(&ledger.history(1)), ledger.current_status(1));
    assert_eq!(latest_status(&ledger.history(3)), ledger.current_status(3));
}
