use ccusage_rho::calendar::{utc_datetime, CivilDate, CivilDateTime};
use ccusage_rho::clock::{format_date, format_rfc3339_millis, local_date_at, report_date, TIMESTAMP_MAX_MS};
use ccusage_rho::event::{
    cost_basis, event_to_entry, event_to_entry_at, model_candidates, non_negative,
    select_pricing_model, total_usage_tokens, CostBasis, CostMode, PricingCatalog, RhoUsageEvent,
    TokenUsage,
};
use ccusage_rho::loader::{load_entries, row_to_event, LedgerRead, RawUsageRow, StepOutcome};
use ccusage_rho::paths::db_path_candidate;
use ccusage_rho::text::replace_dashes;
use jiff::tz::{offset, TimeZone};

fn text(s: &str) -> Option<String> {
    Some(s.to_string())
}

fn event() -> RhoUsageEvent {
    RhoUsageEvent {
        event_id: "event-1".to_string(),
        schema_version: 1,
        occurred_at_ms: 1767312000000,
        session_id: text("session-a"),
        run_id: text("run-a"),
        workspace_path: text("/workspace/project"),
        provider: "openai".to_string(),
        model: "gpt-4o-2024-08-06".to_string(),
        input_tokens: Some(100),
        output_tokens: Some(50),
        cache_read_tokens: Some(10),
        cache_write_tokens: Some(20),
        total_tokens: Some(185),
        cost_usd_micros: Some(20000),
        rho_version: text("0.9.0"),
    }
}

fn row(id: &str, schema: i64) -> RawUsageRow {
    RawUsageRow {
        event_id: text(id),
        schema_version: Some(schema),
        occurred_at_ms: Some(1767312000000),
        session_id: Some(None),
        run_id: Some(None),
        workspace_path: Some(None),
        provider: text("openai"),
        model: text("gpt-4o"),
        input_tokens: Some(Some(1)),
        output_tokens: Some(None),
        cache_read_tokens: Some(None),
        cache_write_tokens: Some(None),
        total_tokens: Some(None),
        cost_usd_micros: Some(None),
        rho_version: Some(None),
    }
}

fn jan_2() -> CivilDate {
    CivilDate { year: 2026, month: 1, day: 2 }
}

fn empty_catalog() -> PricingCatalog {
    PricingCatalog { models: vec![] }
}

#[test]
fn negative_and_missing_counts_read_as_zero() {
    assert_eq!(non_negative(Some(-3)), 0);
    assert_eq!(non_negative(None), 0);
    assert_eq!(non_negative(Some(42)), 42);
    assert_eq!(non_negative(Some(i64::MAX)), i64::MAX as u64);
}

#[test]
fn token_total_saturates() {
    let usage = TokenUsage {
        input_tokens: u64::MAX,
        output_tokens: 1,
        cache_creation_input_tokens: 0,
        cache_read_input_tokens: 0,
    };
    assert_eq!(total_usage_tokens(usage), u64::MAX);
    let usage = TokenUsage {
        input_tokens: 100,
        output_tokens: 50,
        cache_creation_input_tokens: 20,
        cache_read_input_tokens: 10,
    };
    assert_eq!(total_usage_tokens(usage), 180);
}

#[test]
fn candidates_qualify_the_model_with_its_provider() {
    assert_eq!(model_candidates("gpt-4o", "openai"), vec!["openai/gpt-4o".to_string(), "gpt-4o".to_string()]);
    assert_eq!(
        model_candidates("gemini", "google-vertex"),
        vec!["google_vertex/gemini".to_string(), "gemini".to_string()]
    );
    assert_eq!(model_candidates("m", "unknown"), vec!["m".to_string()]);
    assert_eq!(model_candidates("m", "rho"), vec!["m".to_string()]);
    assert_eq!(model_candidates("m", ""), vec!["m".to_string()]);
}

#[test]
fn dashes_become_underscores() {
    assert_eq!(replace_dashes("a-b--c"), "a_b__c");
    assert_eq!(replace_dashes(""), "");
}

#[test]
fn pricing_prefers_the_qualified_name() {
    let cands = model_candidates("gpt-4o", "openai");
    let both = PricingCatalog { models: vec!["gpt-4o".to_string(), "openai/gpt-4o".to_string()] };
    assert_eq!(select_pricing_model(&cands, &both, "gpt-4o"), "openai/gpt-4o");
    let raw = PricingCatalog { models: vec!["gpt-4o".to_string()] };
    assert_eq!(select_pricing_model(&cands, &raw, "gpt-4o"), "gpt-4o");
    assert_eq!(select_pricing_model(&cands, &empty_catalog(), "gpt-4o"), "gpt-4o");
    assert!(raw.find(&"gpt-4o".to_string()));
    assert!(!raw.find(&"gpt-4".to_string()));
}

#[test]
fn cost_modes_pick_the_cost_source() {
    assert_eq!(cost_basis(CostMode::Auto, Some(7)), CostBasis::Stored(7));
    assert_eq!(cost_basis(CostMode::Auto, None), CostBasis::Calculated);
    assert_eq!(cost_basis(CostMode::Calculate, Some(7)), CostBasis::Calculated);
    assert_eq!(cost_basis(CostMode::Display, Some(7)), CostBasis::Stored(7));
    assert_eq!(cost_basis(CostMode::Display, None), CostBasis::Zero);
}

#[test]
fn negative_stored_cost_is_no_cost() {
    let mut ev = event();
    ev.cost_usd_micros = Some(-1);
    let entry = event_to_entry_at(ev, jan_2(), CostMode::Display, &empty_catalog()).unwrap();
    assert_eq!(entry.cost_usd_micros, None);
    assert_eq!(entry.cost_basis, CostBasis::Zero);
    assert_eq!(entry.missing_pricing_model, None);
}

#[test]
fn entry_keeps_identity_and_formats_times() {
    let entry = event_to_entry_at(event(), jan_2(), CostMode::Auto, &empty_catalog()).unwrap();
    assert_eq!(entry.event_id, "event-1");
    assert_eq!(entry.occurred_at_ms, 1767312000000);
    assert_eq!(entry.timestamp, "2026-01-02T00:00:00.000Z");
    assert_eq!(entry.date, "2026-01-02");
    assert_eq!(entry.project, "rho");
    assert_eq!(entry.model, "gpt-4o-2024-08-06");
    assert_eq!(entry.pricing_model, "gpt-4o-2024-08-06");
    assert_eq!(entry.cost_usd_micros, Some(20000));
    assert_eq!(entry.missing_pricing_model, None);
}

#[test]
fn unpriced_models_are_reported_only_for_calculated_costs() {
    let priced = PricingCatalog { models: vec!["openai/gpt-4o-2024-08-06".to_string()] };
    let entry = event_to_entry_at(event(), jan_2(), CostMode::Calculate, &priced).unwrap();
    assert_eq!(entry.pricing_model, "openai/gpt-4o-2024-08-06");
    assert_eq!(entry.missing_pricing_model, None);
    let entry = event_to_entry_at(event(), jan_2(), CostMode::Calculate, &empty_catalog()).unwrap();
    assert_eq!(entry.missing_pricing_model.as_deref(), Some("gpt-4o-2024-08-06"));
    let entry = event_to_entry_at(event(), jan_2(), CostMode::Display, &empty_catalog()).unwrap();
    assert_eq!(entry.missing_pricing_model, None);
    let mut ev = event();
    ev.cost_usd_micros = None;
    let entry = event_to_entry_at(ev, jan_2(), CostMode::Auto, &empty_catalog()).unwrap();
    assert_eq!(entry.missing_pricing_model.as_deref(), Some("gpt-4o-2024-08-06"));
}

#[test]
fn empty_session_falls_back_to_run_then_event() {
    let mut ev = event();
    ev.session_id = text("");
    let entry = event_to_entry_at(ev, jan_2(), CostMode::Auto, &empty_catalog()).unwrap();
    assert_eq!(entry.session_id, "run-a");
    let mut ev = event();
    ev.session_id = None;
    ev.run_id = text("");
    ev.workspace_path = text("");
    let entry = event_to_entry_at(ev, jan_2(), CostMode::Auto, &empty_catalog()).unwrap();
    assert_eq!(entry.session_id, "event-1");
    assert_eq!(entry.project_path, "Rho");
}

#[test]
fn events_without_usage_or_valid_time_are_skipped() {
    let mut ev = event();
    ev.input_tokens = Some(0);
    ev.output_tokens = None;
    ev.cache_read_tokens = Some(-4);
    ev.cache_write_tokens = None;
    ev.total_tokens = Some(0);
    assert!(event_to_entry_at(ev, jan_2(), CostMode::Auto, &empty_catalog()).is_none());
    let mut ev = event();
    ev.occurred_at_ms = 0;
    assert!(event_to_entry_at(ev, jan_2(), CostMode::Auto, &empty_catalog()).is_none());
}

#[test]
fn far_future_events_are_kept_and_dated_in_utc() {
    let mut ev = event();
    ev.occurred_at_ms = TIMESTAMP_MAX_MS;
    let entry = event_to_entry(ev, Some(&TimeZone::UTC), CostMode::Auto, &empty_catalog()).unwrap();
    assert_eq!(entry.timestamp, "9999-12-30T22:00:00.000Z");
    assert_eq!(entry.date, "9999-12-30");
    let mut ev = event();
    ev.occurred_at_ms = 300000000000000;
    let west = TimeZone::fixed(offset(-5));
    let entry = event_to_entry(ev, Some(&west), CostMode::Auto, &empty_catalog()).unwrap();
    assert_eq!(entry.timestamp, "11476-08-15T05:20:00.000Z");
    assert_eq!(entry.date, "11476-08-15");
    assert_eq!(entry.extra_total_tokens, 5);
}

#[test]
fn utc_datetimes_follow_the_gregorian_calendar() {
    assert_eq!(
        utc_datetime(0),
        CivilDateTime { year: 1970, month: 1, day: 1, hour: 0, minute: 0, second: 0, millisecond: 0 }
    );
    assert_eq!(
        utc_datetime(-1),
        CivilDateTime { year: 1969, month: 12, day: 31, hour: 23, minute: 59, second: 59, millisecond: 999 }
    );
    assert_eq!(
        utc_datetime(1709208000123),
        CivilDateTime { year: 2024, month: 2, day: 29, hour: 12, minute: 0, second: 0, millisecond: 123 }
    );
    assert_eq!(
        utc_datetime(951782400000),
        CivilDateTime { year: 2000, month: 2, day: 29, hour: 0, minute: 0, second: 0, millisecond: 0 }
    );
    assert_eq!(format_rfc3339_millis(utc_datetime(i64::MAX)), "292278994-08-17T07:12:55.807Z");
    assert_eq!(format_rfc3339_millis(utc_datetime(i64::MIN)), "-292275055-05-16T16:47:04.192Z");
    for ms in [1767312000000i64, -62135596800000, 1000000000000, 4102444800000] {
        let ts = jiff::Timestamp::from_millisecond(ms).unwrap();
        let expected = ts.to_zoned(TimeZone::UTC).strftime("%Y-%m-%dT%H:%M:%S%.3fZ").to_string();
        assert_eq!(format_rfc3339_millis(utc_datetime(ms)), expected);
    }
}

#[test]
fn total_below_the_categories_gives_no_extra() {
    let mut ev = event();
    ev.total_tokens = Some(3);
    let entry = event_to_entry_at(ev, jan_2(), CostMode::Auto, &empty_catalog()).unwrap();
    assert_eq!(entry.extra_total_tokens, 0);
    assert_eq!(entry.usage.output_tokens, 50);
}

#[test]
fn dates_follow_the_time_zone() {
    let ms = 1767312000000;
    assert_eq!(local_date_at(ms, Some(&TimeZone::UTC)), Some(jan_2()));
    let west = TimeZone::fixed(offset(-5));
    assert_eq!(local_date_at(ms, Some(&west)), Some(CivilDate { year: 2026, month: 1, day: 1 }));
    let entry = event_to_entry(event(), Some(&west), CostMode::Auto, &empty_catalog()).unwrap();
    assert_eq!(entry.date, "2026-01-01");
    assert_eq!(entry.timestamp, "2026-01-02T00:00:00.000Z");
    assert_eq!(local_date_at(TIMESTAMP_MAX_MS + 1, None), None);
    assert_eq!(report_date(TIMESTAMP_MAX_MS + 1, Some(&west)), CivilDate { year: 9999, month: 12, day: 30 });
}

#[test]
fn formats_dates_and_timestamps_with_padding() {
    assert_eq!(format_date(CivilDate { year: 7, month: 3, day: 9 }), "0007-03-09");
    assert_eq!(format_date(CivilDate { year: -44, month: 3, day: 15 }), "-0044-03-15");
    let t = CivilDateTime { year: 2024, month: 12, day: 31, hour: 23, minute: 5, second: 9, millisecond: 42 };
    assert_eq!(format_rfc3339_millis(t), "2024-12-31T23:05:09.042Z");
    assert!(format_rfc3339_millis(t).starts_with(&format_date(CivilDate { year: 2024, month: 12, day: 31 })));
}

#[test]
fn rows_missing_required_columns_are_skipped() {
    let mut r = row("e", 1);
    r.model = None;
    assert!(row_to_event(&r).is_none());
    let mut r = row("e", 1);
    r.session_id = None;
    r.input_tokens = None;
    r.output_tokens = Some(Some(3));
    let ev = row_to_event(&r).unwrap();
    assert_eq!(ev.session_id, None);
    assert_eq!(ev.input_tokens, None);
    assert_eq!(ev.output_tokens, Some(3));
}

#[test]
fn loading_stops_at_the_first_failure_and_keeps_order() {
    let read = LedgerRead::Steps(vec![
        StepOutcome::Row(row("a", 1)),
        StepOutcome::Row(row("b", 2)),
        StepOutcome::Row(row("c", 1)),
        StepOutcome::Failed,
        StepOutcome::Row(row("d", 1)),
        StepOutcome::Done,
    ]);
    let entries = load_entries(Some(&read), Some(&TimeZone::UTC), CostMode::Auto, &empty_catalog());
    let ids: Vec<&str> = entries.iter().map(|e| e.event_id.as_str()).collect();
    assert_eq!(ids, vec!["a", "c"]);
    assert_eq!(entries[0].session_id, "a");
    assert_eq!(entries[0].pricing_model, "gpt-4o");
    assert_eq!(entries[0].missing_pricing_model.as_deref(), Some("gpt-4o"));
}

#[test]
fn unreadable_or_missing_ledger_gives_no_entries() {
    let cat = empty_catalog();
    assert!(load_entries(None, None, CostMode::Auto, &cat).is_empty());
    assert!(load_entries(Some(&LedgerRead::OpenFailed), None, CostMode::Auto, &cat).is_empty());
    assert!(load_entries(Some(&LedgerRead::QueryFailed), None, CostMode::Auto, &cat).is_empty());
    assert!(load_entries(Some(&LedgerRead::Steps(vec![])), None, CostMode::Auto, &cat).is_empty());
}

#[test]
fn ledger_path_prefers_rho_home_then_home() {
    assert_eq!(
        db_path_candidate(Some(String::new()), Some("/home/u".to_string())),
        Some(vec!["/home/u".to_string(), ".rho".to_string(), "usage.sqlite3".to_string()])
    );
    assert_eq!(
        db_path_candidate(Some("/data".to_string()), None),
        Some(vec!["/data".to_string(), "usage.sqlite3".to_string()])
    );
    assert_eq!(db_path_candidate(None, None), None);
}
