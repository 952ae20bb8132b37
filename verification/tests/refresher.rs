use atlas_rs::db_refresher::{refresh_outcome, update_sleep_secs, FetchOutcome, UpdateOutcome};
use atlas_rs::maxmind_db::{current_time_unix, select_latest_version};

#[test]
fn classifies_fetch_outcomes() {
    assert_eq!(
        refresh_outcome(&FetchOutcome::Fetched("dir".to_string())),
        UpdateOutcome::Installed
    );
    assert_eq!(refresh_outcome(&FetchOutcome::AlreadyPresent), UpdateOutcome::Skipped);
    assert_eq!(
        refresh_outcome(&FetchOutcome::Failed("network".to_string())),
        UpdateOutcome::Failed
    );
}

#[test]
fn backs_off_after_failures_only() {
    assert_eq!(update_sleep_secs(&UpdateOutcome::Failed, 86400), 300);
    assert_eq!(update_sleep_secs(&UpdateOutcome::Installed, 86400), 86400);
    assert_eq!(update_sleep_secs(&UpdateOutcome::Skipped, 7200), 7200);
}

#[test]
fn selects_the_newest_installed_version() {
    let names: Vec<String> = vec![
        "GeoIP2-City-Test_20230101".to_string(),
        "unrelated".to_string(),
        "GeoIP2-City-Test_20240101".to_string(),
        "GeoIP2-City-Test_20231110".to_string(),
    ];
    assert_eq!(
        select_latest_version("GeoIP2-City-Test", &names).as_deref(),
        Some("GeoIP2-City-Test_20240101")
    );
    assert_eq!(select_latest_version("GeoLite2-ASN", &names), None);
    assert_eq!(select_latest_version("x", &Vec::new()), None);
}

#[test]
fn the_clock_moves_forward() {
    let a = current_time_unix();
    let b = current_time_unix();
    assert!(b >= a);
    assert!(a > 1700000000);
}
