use vstd::prelude::*;
use crate::event::{
    accepted, entry_from, event_to_entry, CostMode, PricingCatalog, RhoEntry, RhoUsageEvent,
};
use jiff::tz::TimeZone;

verus! {

/// The columns of one ledger row as they could be read. A required column
/// that could not be read as its type is `None`; an optional column is
/// `None` when it could not be read and `Some(None)` when it holds NULL.
#[derive(Clone, Debug, PartialEq, Eq)]
pub struct RawUsageRow {
    pub event_id: Option<String>,
    pub schema_version: Option<i64>,
    pub occurred_at_ms: Option<i64>,
    pub session_id: Option<Option<String>>,
    pub run_id: Option<Option<String>>,
    pub workspace_path: Option<Option<String>>,
    pub provider: Option<String>,
    pub model: Option<String>,
    pub input_tokens: Option<Option<i64>>,
    pub output_tokens: Option<Option<i64>>,
    pub cache_read_tokens: Option<Option<i64>>,
    pub cache_write_tokens: Option<Option<i64>>,
    pub total_tokens: Option<Option<i64>>,
    pub cost_usd_micros: Option<Option<i64>>,
    pub rho_version: Option<Option<String>>,
}

/// What one step of the ledger query gave.
#[derive(Clone, Debug, PartialEq, Eq)]
pub enum StepOutcome {
    /// The next row.
    Row(RawUsageRow),
    /// No more rows.
    Done,
    /// The query failed.
    Failed,
}

/// What reading the ledger database gave.
#[derive(Clone, Debug, PartialEq, Eq)]
pub enum LedgerRead {
    /// The database could not be opened.
    OpenFailed,
    /// The usage query could not be prepared.
    QueryFailed,
    /// The steps of the usage query, in order.
    Steps(Vec<StepOutcome>),
}

/// An optional column read as its value: unreadable counts as absent.
pub open spec fn flat<T>(o: Option<Option<T>>) -> Option<T> {
    match o {
        Some(v) => v,
        None => None,
    }
}

/// The event a row holds, or `None` when a required column could not be
/// read.
pub open spec fn row_event(row: RawUsageRow) -> Option<RhoUsageEvent> {
    if row.event_id is Some && row.schema_version is Some && row.occurred_at_ms is Some
        && row.provider is Some && row.model is Some {
        Some(RhoUsageEvent {
            event_id: row.event_id->0,
            schema_version: row.schema_version->0,
            occurred_at_ms: row.occurred_at_ms->0,
            session_id: flat(row.session_id),
            run_id: flat(row.run_id),
            workspace_path: flat(row.workspace_path),
            provider: row.provider->0,
            model: row.model->0,
            input_tokens: flat(row.input_tokens),
            output_tokens: flat(row.output_tokens),
            cache_read_tokens: flat(row.cache_read_tokens),
            cache_write_tokens: flat(row.cache_write_tokens),
            total_tokens: flat(row.total_tokens),
            cost_usd_micros: flat(row.cost_usd_micros),
            rho_version: flat(row.rho_version),
        })
    } else {
        None
    }
}

/// The number of steps before the first one that is not a row.
pub open spec fn first_stop(steps: Seq<StepOutcome>) -> nat
    decreases steps.len(),
{
    if steps.len() == 0 {
        0
    } else if steps[0] is Row {
        1 + first_stop(steps.drop_first())
    } else {
        0
    }
}

/// The accepted events that the rows among `steps` hold, in order.
pub open spec fn events_of(steps: Seq<StepOutcome>) -> Seq<RhoUsageEvent>
    decreases steps.len(),
{
    if steps.len() == 0 {
        Seq::empty()
    } else {
        let prev = events_of(steps.drop_last());
        match steps.last() {
            StepOutcome::Row(row) => match row_event(row) {
                Some(ev) => if accepted(ev) { prev.push(ev) } else { prev },
                None => prev,
            },
            _ => prev,
        }
    }
}

/// The events that reading the ledger yields: those of the rows before the
/// query stopped.
pub open spec fn ledger_events(read: LedgerRead) -> Seq<RhoUsageEvent> {
    match read {
        LedgerRead::Steps(steps) => events_of(steps@.take(first_stop(steps@) as int)),
        _ => Seq::empty(),
    }
}

/// The events of a ledger, when one was found.
pub open spec fn found_events(ledger: Option<&LedgerRead>) -> Seq<RhoUsageEvent> {
    match ledger {
        Some(read) => ledger_events(*read),
        None => Seq::empty(),
    }
}

/// `es` are the entries of `evs`, one for one and in order.
pub open spec fn entries_match(
    es: Seq<RhoEntry>,
    evs: Seq<RhoUsageEvent>,
    mode: CostMode,
    priced: Seq<Seq<char>>,
) -> bool {
    &&& es.len() == evs.len()
    &&& forall|k: int| 0 <= k < es.len() ==> #[trigger] entry_from(es[k], evs[k], mode, priced)
}

proof fn lemma_first_stop(steps: Seq<StepOutcome>, i: int)
    requires
        0 <= i <= steps.len(),
        forall|j: int| 0 <= j < i ==> steps[j] is Row,
        i == steps.len() || steps[i] !is Row,
    ensures
        first_stop(steps) == i,
    decreases i,
{
    if i > 0 {
        assert forall|j: int| 0 <= j < i - 1 implies steps.drop_first()[j] is Row by {
            assert(steps.drop_first()[j] == steps[j + 1]);
        }
        lemma_first_stop(steps.drop_first(), i - 1);
    }
}

fn clone_text(o: &Option<String>) -> (r: Option<String>)
    ensures
        r == *o,
{
    match o {
        Some(s) => Some(s.clone()),
        None => None,
    }
}

fn read_text(o: &Option<Option<String>>) -> (r: Option<String>)
    ensures
        r == flat(*o),
{
    match o {
        Some(v) => clone_text(v),
        None => None,
    }
}

fn read_count(o: Option<Option<i64>>) -> (r: Option<i64>)
    ensures
        r == flat(o),
{
    match o {
        Some(v) => v,
        None => None,
    }
}

/// The event a row holds; `None` when a required column (event id, schema
/// version, timestamp, provider or model) could not be read.
pub fn row_to_event(row: &RawUsageRow) -> (event: Option<RhoUsageEvent>)
    ensures
        event == row_event(*row),
{
    let event_id = match clone_text(&row.event_id) {
        Some(v) => v,
        None => return None,
    };
    let schema_version = match row.schema_version {
        Some(v) => v,
        None => return None,
    };
    let occurred_at_ms = match row.occurred_at_ms {
        Some(v) => v,
        None => return None,
    };
    let provider = match clone_text(&row.provider) {
        Some(v) => v,
        None => return None,
    };
    let model = match clone_text(&row.model) {
        Some(v) => v,
        None => return None,
    };
    Some(RhoUsageEvent {
        event_id,
        schema_version,
        occurred_at_ms,
        session_id: read_text(&row.session_id),
        run_id: read_text(&row.run_id),
        workspace_path: read_text(&row.workspace_path),
        provider,
        model,
        input_tokens: read_count(row.input_tokens),
        output_tokens: read_count(row.output_tokens),
        cache_read_tokens: read_count(row.cache_read_tokens),
        cache_write_tokens: read_count(row.cache_write_tokens),
        total_tokens: read_count(row.total_tokens),
        cost_usd_micros: read_count(row.cost_usd_micros),
        rho_version: read_text(&row.rho_version),
    })
}

/// The entries of what reading the ledger gave: one for each accepted
/// event among the rows before the query stopped, in order. A database
/// that could not be opened or queried gives none.
pub fn load_entries_from_database(
    read: &LedgerRead,
    tz: Option<&TimeZone>,
    mode: CostMode,
    catalog: &PricingCatalog,
) -> (entries: Vec<RhoEntry>)
    ensures
        entries_match(entries@, ledger_events(*read), mode, catalog@),
{
    let mut entries: Vec<RhoEntry> = Vec::new();
    match read {
        LedgerRead::Steps(steps) => {
            let mut i: usize = 0;
            assert(steps@.take(0) == Seq::<StepOutcome>::empty());
            while i < steps.len()
                invariant
                    i <= steps@.len(),
                    forall|j: int| 0 <= j < i ==> steps@[j] is Row,
                    entries_match(entries@, events_of(steps@.take(i as int)), mode, catalog@),
                ensures
                    i <= steps@.len(),
                    forall|j: int| 0 <= j < i ==> steps@[j] is Row,
                    i == steps@.len() || steps@[i as int] !is Row,
                    entries_match(entries@, events_of(steps@.take(i as int)), mode, catalog@),
                decreases steps@.len() - i,
            {
                let ghost before = events_of(steps@.take(i as int));
                assert(steps@.take(i + 1).drop_last() == steps@.take(i as int));
                match &steps[i] {
                    StepOutcome::Row(row) => {
                        match row_to_event(row) {
                            Some(event) => {
                                let ghost ev = event;
                                match event_to_entry(event, tz, mode, catalog) {
                                    Some(entry) => {
                                        let ghost prev = entries@;
                                        entries.push(entry);
                                        assert(events_of(steps@.take(i + 1)) == before.push(ev));
                                        assert forall|k: int| 0 <= k < entries@.len() implies
                                            #[trigger] entry_from(entries@[k], before.push(ev)[k], mode, catalog@) by {
                                            if k < entries@.len() - 1 {
                                                assert(entries@[k] == prev[k]);
                                            }
                                        }
                                    },
                                    None => {
                                        assert(events_of(steps@.take(i + 1)) == before);
                                    },
                                }
                            },
                            None => {
                                assert(events_of(steps@.take(i + 1)) == before);
                            },
                        }
                        i = i + 1;
                    },
                    _ => {
                        break;
                    },
                }
            }
            proof {
                lemma_first_stop(steps@, i as int);
            }
        },
        _ => {},
    }
    entries
}

/// The entries of the ledger, when one was found; none otherwise.
pub fn load_entries_inner(
    ledger: Option<&LedgerRead>,
    tz: Option<&TimeZone>,
    mode: CostMode,
    catalog: &PricingCatalog,
) -> (entries: Vec<RhoEntry>)
    ensures
        entries_match(entries@, found_events(ledger), mode, catalog@),
{
    match ledger {
        Some(read) => load_entries_from_database(read, tz, mode, catalog),
        None => Vec::new(),
    }
}

/// The report entries of Rho's usage ledger, when one was found: one for
/// each accepted event among the rows read before the query stopped, in
/// order.
pub fn load_entries(
    ledger: Option<&LedgerRead>,
    tz: Option<&TimeZone>,
    mode: CostMode,
    catalog: &PricingCatalog,
) -> (entries: Vec<RhoEntry>)
    ensures
        entries_match(entries@, found_events(ledger), mode, catalog@),
{
    load_entries_inner(ledger, tz, mode, catalog)
}

} // verus!
