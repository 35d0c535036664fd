use statusline::config::DatabaseConfig;
use statusline::error::StatuslineError;
use statusline::stats::{
    month_key, raise_high_water, AllTimeStats, PeriodStats, PruneSummary, SessionStats, StatsData,
};
use statusline::string_map::StringMap;

const T0: &str = "2025-08-25T10:00:00Z";
const T1: &str = "2025-08-25T10:05:00Z";
const T2: &str = "2025-08-26T09:00:00Z";
const T3: &str = "2025-08-27T09:00:00Z";

fn all_time(ledger: &StatsData) -> (u128, u64) {
    let AllTimeStats { total_cost, session_count } = ledger.all_time();
    (total_cost, session_count)
}

#[test]
fn replaying_a_session_replaces_its_cost() {
    let mut ledger = StatsData::new();
    ledger.record("S", 10_000_000, 0, 0, "2025-08-25", T0, None).unwrap();
    ledger.record("S", 15_000_000, 0, 0, "2025-08-25", T1, None).unwrap();
    assert_eq!(all_time(&ledger), (15_000_000, 1));
    assert_eq!(ledger.session("S").unwrap().cost, 15_000_000);
}

#[test]
fn daily_total_accumulates_deltas() {
    let mut ledger = StatsData::new();
    ledger.record("S", 10_000_000, 0, 0, "2025-08-25", T0, None).unwrap();
    assert_eq!(ledger.get_daily_total("2025-08-25"), 10_000_000);
    assert_eq!(ledger.get_monthly_total("2025-08"), 10_000_000);
    ledger.record("S", 6_000_000, 0, 0, "2025-08-25", T1, None).unwrap();
    assert_eq!(ledger.get_daily_total("2025-08-25"), 6_000_000);
    assert_eq!(ledger.get_monthly_total("2025-08"), 6_000_000);
    assert_eq!(all_time(&ledger), (6_000_000, 1));
}

#[test]
fn a_correction_on_a_later_day_is_booked_on_that_day() {
    let mut ledger = StatsData::new();
    ledger.record("S", 10_000_000, 0, 0, "2025-08-25", T0, None).unwrap();
    ledger.record("S", 6_000_000, 0, 0, "2025-08-26", T2, None).unwrap();
    assert_eq!(ledger.get_daily_total("2025-08-25"), 10_000_000);
    assert_eq!(ledger.get_daily_total("2025-08-26"), -4_000_000);
    assert_eq!(ledger.get_monthly_total("2025-08"), 6_000_000);
    assert_eq!(all_time(&ledger), (6_000_000, 1));
}

#[test]
fn line_counts_are_the_latest_absolute_values() {
    let mut ledger = StatsData::new();
    ledger.record("S", 0, 200, 20, "2025-08-25", T0, None).unwrap();
    ledger.record("S", 0, 210, 5, "2025-08-25", T1, None).unwrap();
    let row = ledger.session("S").unwrap();
    assert_eq!(row.lines_added, 210);
    assert_eq!(row.lines_removed, 5);
    let day = ledger.daily().get("2025-08-25").unwrap();
    assert_eq!(day.total_lines_added, 210);
    assert_eq!(day.total_lines_removed, 5);
}

#[test]
fn a_session_on_three_days_counts_once() {
    let mut ledger = StatsData::new();
    ledger.record("S", 5_000_000, 0, 0, "2025-08-25", T0, None).unwrap();
    ledger.record("S", 10_000_000, 0, 0, "2025-08-26", T2, None).unwrap();
    ledger.record("S", 15_000_000, 0, 0, "2025-08-27", T3, None).unwrap();
    assert_eq!(all_time(&ledger), (15_000_000, 1));
    for day in ["2025-08-25", "2025-08-26", "2025-08-27"] {
        assert!(ledger.day_lists_session(day, "S"));
        assert_eq!(ledger.get_daily_total(day), 5_000_000);
        assert_eq!(ledger.daily().get(day).unwrap().session_ids, vec!["S".to_string()]);
    }
    assert!(!ledger.day_lists_session("2025-08-24", "S"));
    assert!(!ledger.day_lists_session("2025-08-28", "S"));
    assert!(ledger.month_lists_session("2025-08", "S"));
    assert!(!ledger.month_lists_session("2025-09", "S"));
    assert_eq!(ledger.monthly().get("2025-08").unwrap().session_ids, vec!["S".to_string()]);
    assert_eq!(ledger.get_monthly_total("2025-08"), 15_000_000);
    assert_eq!(ledger.daily().len(), 3);
    assert_eq!(ledger.monthly().len(), 1);
}

#[test]
fn several_sessions_are_counted_each() {
    let mut ledger = StatsData::new();
    ledger.record("A", 1_000_000, 1, 0, "2025-08-25", T0, None).unwrap();
    ledger.record("B", 2_000_000, 2, 0, "2025-08-25", T0, None).unwrap();
    ledger.record("C", 3_000_000, 3, 0, "2025-09-01", T0, None).unwrap();
    ledger.record("A", 4_000_000, 4, 0, "2025-09-01", T1, None).unwrap();
    assert_eq!(all_time(&ledger), (9_000_000, 3));
    assert_eq!(ledger.get_daily_total("2025-08-25"), 3_000_000);
    assert_eq!(ledger.get_daily_total("2025-09-01"), 6_000_000);
    assert_eq!(ledger.get_monthly_total("2025-08"), 3_000_000);
    assert_eq!(ledger.get_monthly_total("2025-09"), 6_000_000);
    assert_eq!(ledger.sessions().len(), 3);
    assert_eq!(ledger.sessions()[0].session_id, "A");
    assert_eq!(ledger.sessions()[0].cost, 4_000_000);
    assert_eq!(ledger.sessions()[1].session_id, "B");
    assert_eq!(ledger.sessions()[2].session_id, "C");
    assert!(ledger.day_lists_session("2025-09-01", "A"));
    assert!(ledger.day_lists_session("2025-09-01", "C"));
    assert!(!ledger.day_lists_session("2025-09-01", "B"));
}

#[test]
fn an_unchanged_report_updates_the_moment_alone() {
    let mut ledger = StatsData::new();
    ledger.record("S", 1_000_000, 150, 0, "2025-08-25", T0, None).unwrap();
    ledger.record("S", 1_000_000, 150, 0, "2025-08-25", T1, None).unwrap();
    let row = ledger.session("S").unwrap();
    assert_eq!(row.cost, 1_000_000);
    assert_eq!(row.lines_added, 150);
    assert_eq!(row.start_time, T0);
    assert_eq!(row.last_updated, T1);
    assert_eq!(ledger.get_daily_total("2025-08-25"), 1_000_000);
    assert_eq!(all_time(&ledger), (1_000_000, 1));
}

#[test]
fn an_empty_ledger_holds_nothing() {
    let ledger = StatsData::new();
    assert_eq!(all_time(&ledger), (0, 0));
    assert!(ledger.session("S").is_none());
    assert_eq!(ledger.get_daily_total("2025-08-25"), 0);
    assert_eq!(ledger.get_monthly_total("2025-08"), 0);
    assert_eq!(ledger.get_session_max_tokens("S"), None);
    assert_eq!(ledger.get_session_duration("S"), None);
    assert!(!ledger.day_lists_session("2025-08-25", "S"));
}

#[test]
fn the_high_water_mark_only_rises() {
    let mut ledger = StatsData::new();
    ledger.record("S", 0, 0, 0, "2025-08-25", T0, None).unwrap();
    assert_eq!(ledger.get_session_max_tokens("S"), None);
    ledger.record("S", 0, 0, 0, "2025-08-25", T0, Some(150_000)).unwrap();
    assert_eq!(ledger.get_session_max_tokens("S"), Some(150_000));
    ledger.record("S", 0, 0, 0, "2025-08-25", T0, Some(50_000)).unwrap();
    assert_eq!(ledger.get_session_max_tokens("S"), Some(150_000));
    ledger.record("S", 0, 0, 0, "2025-08-25", T0, None).unwrap();
    assert_eq!(ledger.get_session_max_tokens("S"), Some(150_000));
    ledger.record("S", 0, 0, 0, "2025-08-25", T0, Some(180_000)).unwrap();
    assert_eq!(ledger.get_session_max_tokens("S"), Some(180_000));
    assert_eq!(raise_high_water(None, None), None);
    assert_eq!(raise_high_water(Some(3), Some(3)), Some(3));
}

#[test]
fn session_duration_spans_its_reports() {
    let mut ledger = StatsData::new();
    ledger.record("S", 0, 0, 0, "2025-08-25", T0, None).unwrap();
    assert_eq!(ledger.get_session_duration("S"), None);
    ledger.record("S", 0, 0, 0, "2025-08-25", T1, None).unwrap();
    assert_eq!(ledger.get_session_duration("S"), Some(300));
    ledger.record("S", 0, 0, 0, "2025-08-26", T2, None).unwrap();
    assert_eq!(ledger.get_session_duration("S"), Some(82_800));
    ledger.record("S", 0, 0, 0, "2025-08-26", "no moment", None).unwrap();
    assert_eq!(ledger.get_session_duration("S"), None);
    assert_eq!(ledger.get_session_duration("T"), None);
}

#[test]
fn the_month_is_the_start_of_the_date() {
    assert_eq!(month_key("2025-08-25"), "2025-08");
    assert_eq!(month_key("2025-08"), "2025-08");
    assert_eq!(month_key("2025"), "2025");
    assert_eq!(month_key(""), "");
}

#[test]
fn amounts_out_of_range_leave_the_ledger_as_it_is() {
    let day = PeriodStats {
        total_cost: i128::MAX - 5,
        total_lines_added: 0,
        total_lines_removed: 0,
        session_ids: vec![],
    };
    let mut daily = StringMap::new();
    daily.insert("2025-08-25".to_string(), day);
    let mut ledger = StatsData::from_rows(vec![], daily, StringMap::new(), 0, 0).unwrap();
    match ledger.record("S", 6, 0, 0, "2025-08-25", T0, None) {
        Err(StatuslineError::Database(_)) => {}
        other => panic!("unexpected result: {:?}", other),
    }
    assert_eq!(all_time(&ledger), (0, 0));
    assert!(ledger.session("S").is_none());
    assert_eq!(ledger.get_daily_total("2025-08-25"), i128::MAX - 5);
    assert_eq!(ledger.get_monthly_total("2025-08"), 0);
    assert!(ledger.record("S", 5, 0, 0, "2025-08-25", T0, None).is_ok());
    assert_eq!(ledger.get_daily_total("2025-08-25"), i128::MAX);
    assert_eq!(all_time(&ledger), (5, 1));
}

fn row(id: &str, cost: u64, last_updated: &str) -> SessionStats {
    SessionStats {
        session_id: id.to_string(),
        cost,
        lines_added: 0,
        lines_removed: 0,
        start_time: last_updated.to_string(),
        last_updated: last_updated.to_string(),
        max_tokens_seen: None,
    }
}

#[test]
fn stored_rows_make_a_ledger() {
    let rows = vec![row("A", 5, T0), row("B", 7, T1)];
    let ledger = StatsData::from_rows(rows, StringMap::new(), StringMap::new(), 100, 3).unwrap();
    assert_eq!(all_time(&ledger), (112, 5));
    assert_eq!(ledger.session("B").unwrap().cost, 7);
}

#[test]
fn stored_rows_with_a_session_twice_are_refused() {
    let rows = vec![row("A", 5, T0), row("B", 7, T1), row("A", 9, T2)];
    match StatsData::from_rows(rows, StringMap::new(), StringMap::new(), 0, 0) {
        Err(StatuslineError::Database(_)) => {}
        other => panic!("unexpected result: {:?}", other),
    }
    let rows = vec![row("A", u64::MAX, T0)];
    assert!(StatsData::from_rows(rows, StringMap::new(), StringMap::new(), u128::MAX, 0).is_err());
    let rows = vec![row("A", 1, T0)];
    assert!(StatsData::from_rows(rows, StringMap::new(), StringMap::new(), 0, u64::MAX).is_err());
}

#[test]
fn old_session_rows_are_pruned() {
    let mut ledger = StatsData::new();
    ledger.record("old", 1_000_000, 0, 0, "2025-01-01", "2025-01-01T00:00:00Z", None).unwrap();
    ledger.record("new", 2_000_000, 0, 0, "2025-08-25", T0, None).unwrap();
    ledger.record("odd", 4_000_000, 0, 0, "2025-08-25", "no moment", None).unwrap();
    // The cutoff is the moment of the second report.
    assert_eq!(ledger.prune_sessions(1_756_116_000), 1);
    assert!(ledger.session("old").is_none());
    assert!(ledger.session("new").is_some());
    assert!(ledger.session("odd").is_some());
    // What the pruned row held stays in the all-time aggregates.
    assert_eq!(all_time(&ledger), (7_000_000, 3));
    assert_eq!(ledger.prune_sessions(1_756_116_001), 1);
    assert!(ledger.session("new").is_none());
    assert_eq!(ledger.sessions().len(), 1);
    assert_eq!(all_time(&ledger), (7_000_000, 3));
    assert_eq!(ledger.prune_sessions(0), 0);
}

#[test]
fn old_period_rows_are_pruned() {
    let mut ledger = StatsData::new();
    for (id, date) in [("a", "2024-12-31"), ("b", "2025-08-24"), ("c", "2025-08-25"), ("d", "2025-09-01")] {
        ledger.record(id, 1_000_000, 0, 0, date, T0, None).unwrap();
    }
    assert_eq!(ledger.prune_days("2025-08-25"), 2);
    assert_eq!(ledger.get_daily_total("2024-12-31"), 0);
    assert_eq!(ledger.get_daily_total("2025-08-24"), 0);
    assert_eq!(ledger.get_daily_total("2025-08-25"), 1_000_000);
    assert_eq!(ledger.get_daily_total("2025-09-01"), 1_000_000);
    assert_eq!(ledger.prune_months("2025-08"), 1);
    assert_eq!(ledger.get_monthly_total("2024-12"), 0);
    assert_eq!(ledger.get_monthly_total("2025-08"), 2_000_000);
    assert_eq!(ledger.get_monthly_total("2025-09"), 1_000_000);
    assert_eq!(all_time(&ledger), (4_000_000, 4));
    assert_eq!(ledger.sessions().len(), 4);
}

#[test]
fn retention_applies_the_horizons() {
    let mut ledger = StatsData::new();
    ledger.record("a", 1, 0, 0, "2024-08-24", "2024-08-24T00:00:00Z", None).unwrap();
    ledger.record("b", 1, 0, 0, "2024-08-25", "2024-08-25T00:00:00Z", None).unwrap();
    ledger.record("c", 1, 0, 0, "2025-05-27", "2025-05-27T10:00:00Z", None).unwrap();
    ledger.record("d", 1, 0, 0, "2025-08-25", T0, None).unwrap();
    let config = DatabaseConfig::default();
    // Sessions are kept for 90 days, days for 365, months for ever.
    let summary = ledger.apply_retention("2025-08-25", 1_756_116_000, &config);
    assert_eq!(summary, PruneSummary { sessions: 2, days: 1, months: 0 });
    assert!(ledger.session("a").is_none());
    assert!(ledger.session("b").is_none());
    assert!(ledger.session("c").is_some());
    assert!(ledger.session("d").is_some());
    assert_eq!(ledger.get_daily_total("2024-08-24"), 0);
    assert_eq!(ledger.get_daily_total("2024-08-25"), 1);
    assert_eq!(ledger.get_monthly_total("2024-08"), 2);
    assert_eq!(all_time(&ledger), (4, 4));
}

#[test]
fn retention_with_configured_horizons() {
    let mut ledger = StatsData::new();
    ledger.record("a", 1, 0, 0, "2025-06-30", "2025-06-30T00:00:00Z", None).unwrap();
    ledger.record("b", 1, 0, 0, "2025-08-20", "2025-08-20T00:00:00Z", None).unwrap();
    ledger.record("c", 1, 0, 0, "2025-08-25", T0, None).unwrap();
    let mut config = DatabaseConfig::default();
    config.retention_days_sessions = Some(0);
    config.retention_days_daily = Some(5);
    config.retention_days_monthly = Some(30);
    let summary = ledger.apply_retention("2025-08-25", 1_756_116_000, &config);
    assert_eq!(summary, PruneSummary { sessions: 0, days: 1, months: 1 });
    assert_eq!(ledger.sessions().len(), 3);
    assert_eq!(ledger.get_daily_total("2025-06-30"), 0);
    assert_eq!(ledger.get_daily_total("2025-08-20"), 1);
    assert_eq!(ledger.get_monthly_total("2025-06"), 0);
    assert_eq!(ledger.get_monthly_total("2025-08"), 2);

    // A date that cannot be read prunes no period.
    let summary = ledger.apply_retention("today", 1_756_116_000, &config);
    assert_eq!(summary, PruneSummary { sessions: 0, days: 0, months: 0 });
}
