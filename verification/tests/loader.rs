use ccusage_rho::event::{CostBasis, CostMode, PricingCatalog, RhoEntry};
use ccusage_rho::loader::{load_entries, LedgerRead, RawUsageRow, StepOutcome};
use ccusage_rho::paths::{db_path_candidate, RHO_DB_FILE_NAME};
use jiff::tz::TimeZone;

fn text(s: &str) -> Option<String> {
    Some(s.to_string())
}

/// The row that the fixture database holds.
fn usage_row() -> RawUsageRow {
    RawUsageRow {
        event_id: text("event-1"),
        schema_version: Some(1),
        occurred_at_ms: Some(1767312000000),
        session_id: Some(text("session-a")),
        run_id: Some(text("run-a")),
        workspace_path: Some(text("/workspace/project")),
        provider: text("anthropic"),
        model: text("sonnet-4-20250514"),
        input_tokens: Some(Some(100)),
        output_tokens: Some(Some(50)),
        cache_read_tokens: Some(Some(10)),
        cache_write_tokens: Some(Some(20)),
        total_tokens: Some(Some(185)),
        cost_usd_micros: Some(Some(20000)),
        rho_version: Some(text("0.9.0")),
    }
}

fn ledger(row: RawUsageRow) -> LedgerRead {
    LedgerRead::Steps(vec![StepOutcome::Row(row), StepOutcome::Done])
}

fn embedded_catalog() -> PricingCatalog {
    PricingCatalog { models: vec!["sonnet-4-20250514".to_string()] }
}

fn load(row: RawUsageRow, tz: Option<&TimeZone>, mode: CostMode) -> Vec<RhoEntry> {
    load_entries(Some(&ledger(row)), tz, mode, &embedded_catalog())
}

fn cost_usd(entry: &RhoEntry) -> f64 {
    match entry.cost_basis {
        CostBasis::Stored(micros) => micros as f64 / 1_000_000.0,
        CostBasis::Zero => 0.0,
        CostBasis::Calculated => f64::NAN,
    }
}

#[test]
fn loads_rho_usage_events_from_sqlite() {
    let utc = TimeZone::UTC;
    let entries = load(usage_row(), Some(&utc), CostMode::Display);

    assert_eq!(entries.len(), 1);
    assert_eq!(entries[0].date, "2026-01-02");
    assert_eq!(entries[0].session_id, "session-a");
    assert_eq!(entries[0].project_path, "/workspace/project");
    assert_eq!(entries[0].model, "sonnet-4-20250514");
    assert_eq!(entries[0].usage.input_tokens, 100);
    assert_eq!(entries[0].usage.output_tokens, 50);
    assert_eq!(entries[0].usage.cache_read_input_tokens, 10);
    assert_eq!(entries[0].usage.cache_creation_input_tokens, 20);
    assert_eq!(entries[0].extra_total_tokens, 5);
    assert_eq!(cost_usd(&entries[0]), 0.02);
    assert_eq!(entries[0].version.as_deref(), Some("0.9.0"));
}

#[test]
fn session_summary_preserves_workspace_and_activity_metadata() {
    let entries = load(usage_row(), None, CostMode::Auto);

    assert_eq!(entries[0].session_id, "session-a");
    assert_eq!(entries[0].project_path, "/workspace/project");
    assert_eq!(entries[0].timestamp, "2026-01-02T00:00:00.000Z");
}

#[test]
fn auto_mode_prefers_provider_reported_cost() {
    let entries = load(usage_row(), None, CostMode::Auto);

    assert_eq!(cost_usd(&entries[0]), 0.02);
}

#[test]
fn calculate_mode_ignores_provider_reported_cost() {
    let entries = load(usage_row(), None, CostMode::Calculate);

    assert_eq!(entries[0].cost_basis, CostBasis::Calculated);
    assert_eq!(entries[0].pricing_model, "sonnet-4-20250514");
    assert_eq!(entries[0].missing_pricing_model, None);
}

#[test]
fn keeps_unclassified_total_tokens_out_of_output_usage() {
    let mut row = usage_row();
    row.input_tokens = Some(None);
    row.output_tokens = Some(None);
    row.cache_read_tokens = Some(None);
    row.cache_write_tokens = Some(None);
    row.total_tokens = Some(Some(25));

    let entries = load(row, None, CostMode::Auto);

    assert_eq!(entries[0].usage.output_tokens, 0);
    assert_eq!(entries[0].extra_total_tokens, 25);
}

#[test]
fn skips_events_from_unsupported_schema_versions() {
    let mut row = usage_row();
    row.schema_version = Some(2);

    let entries = load(row, None, CostMode::Auto);

    assert!(entries.is_empty());
}

#[test]
fn falls_back_to_run_and_event_identity_when_session_metadata_is_missing() {
    let mut row = usage_row();
    row.session_id = Some(None);
    row.workspace_path = Some(None);
    row.total_tokens = Some(None);

    let entries = load(row, None, CostMode::Auto);

    assert_eq!(entries[0].session_id, "run-a");
    assert_eq!(entries[0].project_path, "Rho");
    assert_eq!(entries[0].extra_total_tokens, 0);
}

#[test]
fn discovers_database_from_rho_home() {
    let root = "/tmp/fixture-root".to_string();

    let path = db_path_candidate(Some(root.clone()), Some("/home/user".to_string()));

    assert_eq!(path, Some(vec![root, RHO_DB_FILE_NAME.to_string()]));
}
