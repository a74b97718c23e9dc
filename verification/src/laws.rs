use vstd::prelude::*;
use crate::calendar::{CivilDate, CivilDateTime};
use crate::clock::{date_text, timestamp_text};
use crate::event::{
    accepted, basis_of, candidates_of, checks_missing_pricing_of, stored_cost_of, count_of, extra_tokens,
    entry_from, first_priced, known_tokens, qualifies, spec_entry, usage_of, CostBasis, CostMode,
    EntryView, RhoEntry, RhoUsageEvent, SCHEMA_VERSION,
};
use crate::clock::representable;
use crate::loader::{entries_match, events_of, first_stop, ledger_events, LedgerRead, StepOutcome};
use crate::text::dashes_to_underscores;
use crate::paths::{db_path_of, RHO_DB_FILE_NAME, RHO_DIR_NAME};

verus! {

/// An event becomes an entry exactly when it has the supported schema
/// version, a timestamp after the epoch, and at least one token count
/// (in a category or in its total) above zero.
pub proof fn law_kept_iff_tokens_reported(ev: RhoUsageEvent)
    ensures
        accepted(ev) <==> {
            &&& ev.schema_version == SCHEMA_VERSION
            &&& ev.occurred_at_ms > 0
            &&& (count_of(ev.input_tokens) > 0 || count_of(ev.output_tokens) > 0
                || count_of(ev.cache_read_tokens) > 0 || count_of(ev.cache_write_tokens) > 0
                || count_of(ev.total_tokens) > 0)
        },
{
}

/// Tokens that only the total accounts for are reported as extra total
/// tokens and never added to a category: each category keeps its own count,
/// the extra is what the total has beyond the categories' sum, and zero when
/// the total does not exceed that sum.
pub proof fn law_extra_is_unclassified_total(ev: RhoUsageEvent)
    ensures
        usage_of(ev).input_tokens == count_of(ev.input_tokens),
        usage_of(ev).output_tokens == count_of(ev.output_tokens),
        usage_of(ev).cache_read_input_tokens == count_of(ev.cache_read_tokens),
        usage_of(ev).cache_creation_input_tokens == count_of(ev.cache_write_tokens),
        count_of(ev.total_tokens) > known_tokens(usage_of(ev)) ==> known_tokens(usage_of(ev))
            + extra_tokens(ev) == count_of(ev.total_tokens),
        count_of(ev.total_tokens) <= known_tokens(usage_of(ev)) ==> extra_tokens(ev) == 0,
{
}

/// The cost modes: `auto` uses the stored cost when there is one and
/// calculates otherwise; `calculate` always calculates; `display` uses the
/// stored cost, or zero when there is none.
pub proof fn law_cost_modes(stored: Option<u64>)
    ensures
        basis_of(CostMode::Auto, stored) == match stored {
            Some(m) => CostBasis::Stored(m),
            None => CostBasis::Calculated,
        },
        basis_of(CostMode::Calculate, stored) == CostBasis::Calculated,
        basis_of(CostMode::Display, stored) == match stored {
            Some(m) => CostBasis::Stored(m),
            None => CostBasis::Zero,
        },
{
}

/// A missing model price is looked for exactly when the cost is to be
/// calculated, and a model is reported unpriced exactly when it is looked
/// for and the catalog prices none of the model's names.
pub proof fn law_missing_pricing_only_when_calculated(
    ev: RhoUsageEvent,
    date: CivilDate,
    mode: CostMode,
    priced: Seq<Seq<char>>,
)
    ensures
        checks_missing_pricing_of(mode, stored_cost_of(ev)) <==> basis_of(mode, stored_cost_of(ev))
            == CostBasis::Calculated,
        spec_entry(ev, date, mode, priced) matches Some(e) ==> (e.missing_pricing_model is Some <==> (
        e.cost_basis == CostBasis::Calculated && forall|i: int|
            0 <= i < candidates_of(ev.model@, ev.provider@).len() ==> !priced.contains(
                #[trigger] candidates_of(ev.model@, ev.provider@)[i],
            ))),
        spec_entry(ev, date, mode, priced) matches Some(e) ==> (e.missing_pricing_model matches Some(
            m,
        ) ==> m == ev.model@),
{
    if spec_entry(ev, date, mode, priced) is Some {
        lemma_first_priced(candidates_of(ev.model@, ev.provider@), priced, ev.model@);
    }
}

/// The model chosen for pricing is priced exactly when some candidate is;
/// when none is, it is the fallback.
proof fn lemma_first_priced(cands: Seq<Seq<char>>, priced: Seq<Seq<char>>, fallback: Seq<char>)
    requires
        cands.len() > 0,
        cands.last() == fallback,
    ensures
        priced.contains(first_priced(cands, priced, fallback)) <==> exists|i: int|
            0 <= i < cands.len() && priced.contains(#[trigger] cands[i]),
    decreases cands.len(),
{
    if priced.contains(cands[0]) {
        assert(priced.contains(cands[0]));
    } else if cands.len() == 1 {
        reveal_with_fuel(first_priced, 2);
        assert(cands.drop_first().len() == 0);
        assert(first_priced(cands, priced, fallback) == cands[0]);
        assert forall|i: int| 0 <= i < cands.len() implies !priced.contains(#[trigger] cands[i]) by {
            assert(i == 0);
        }
    } else {
        assert(cands.drop_first().last() == fallback);
        lemma_first_priced(cands.drop_first(), priced, fallback);
        assert forall|i: int| 1 <= i < cands.len() implies cands[i] == #[trigger] cands.drop_first()[i - 1] by {}
        if exists|i: int| 0 <= i < cands.len() && priced.contains(#[trigger] cands[i]) {
            let i = choose|i: int| 0 <= i < cands.len() && priced.contains(#[trigger] cands[i]);
            assert(priced.contains(cands.drop_first()[i - 1]));
        }
        if exists|i: int| 0 <= i < cands.drop_first().len() && priced.contains(#[trigger] cands.drop_first()[i]) {
            let i = choose|i: int| 0 <= i < cands.drop_first().len() && priced.contains(#[trigger] cands.drop_first()[i]);
            assert(priced.contains(cands[i + 1]));
        }
    }
}

/// The cost mode changes nothing of an entry but where its cost comes from
/// and whether a missing price is looked for: the same events are kept,
/// with the same identity, times, grouping, model and token counts.
pub proof fn law_mode_changes_only_cost(
    ev: RhoUsageEvent,
    date: CivilDate,
    m1: CostMode,
    m2: CostMode,
    priced: Seq<Seq<char>>,
)
    ensures
        spec_entry(ev, date, m1, priced) is Some <==> spec_entry(ev, date, m2, priced) is Some,
        spec_entry(ev, date, m1, priced) matches Some(a) ==> {
            let b = spec_entry(ev, date, m2, priced)->0;
            &&& a.event_id == b.event_id
            &&& a.timestamp == b.timestamp
            &&& a.date == b.date
            &&& a.session_id == b.session_id
            &&& a.project_path == b.project_path
            &&& a.model == b.model
            &&& a.usage == b.usage
            &&& a.extra_total_tokens == b.extra_total_tokens
            &&& a.cost_usd_micros == b.cost_usd_micros
            &&& a.pricing_model == b.pricing_model
        },
{
}

/// A calculated cost is priced under the provider-qualified model name when
/// the catalog holds it, and under the raw model name otherwise.
pub proof fn law_pricing_prefers_qualified(model: Seq<char>, provider: Seq<char>, priced: Seq<Seq<char>>)
    ensures
        ({
            let p = dashes_to_underscores(provider);
            let qualified = p + seq!['/'] + model;
            first_priced(candidates_of(model, provider), priced, model) == if qualifies(p)
                && priced.contains(qualified) {
                qualified
            } else {
                model
            }
        }),
{
    reveal_with_fuel(first_priced, 3);
    let p = dashes_to_underscores(provider);
    let cands = candidates_of(model, provider);
    if qualifies(p) {
        assert(cands.drop_first().drop_first().len() == 0);
        assert(cands.drop_first()[0] == model);
    } else {
        assert(cands.drop_first().len() == 0);
    }
}

/// Steps that follow the point where the query stopped are never read:
/// appending steps after a stop changes neither where the rows end nor
/// which rows come before it.
pub proof fn law_steps_after_stop_ignored(steps: Seq<StepOutcome>, more: Seq<StepOutcome>)
    requires
        first_stop(steps) < steps.len(),
    ensures
        first_stop(steps + more) == first_stop(steps),
        (steps + more).take(first_stop(steps) as int) == steps.take(first_stop(steps) as int),
    decreases steps.len(),
{
    if steps[0] is Row {
        assert((steps + more).drop_first() == steps.drop_first() + more);
        law_steps_after_stop_ignored(steps.drop_first(), more);
    }
    assert((steps + more).take(first_stop(steps) as int) =~= steps.take(first_stop(steps) as int));
}

/// The timestamp text of a UTC datetime begins with the date text of its
/// date, followed by `T`.
pub proof fn law_timestamp_begins_with_date(t: CivilDateTime)
    ensures
        timestamp_text(t).take(date_text(t.date()).len() as int) == date_text(t.date()),
        timestamp_text(t)[date_text(t.date()).len() as int] == 'T',
{
    assert(timestamp_text(t).take(date_text(t.date()).len() as int) =~= date_text(t.date()));
}

proof fn lemma_events_of_accepted(steps: Seq<StepOutcome>)
    ensures
        events_of(steps).len() <= steps.len(),
        forall|i: int| 0 <= i < events_of(steps).len() ==> accepted(#[trigger] events_of(steps)[i]),
    decreases steps.len(),
{
    if steps.len() > 0 {
        lemma_events_of_accepted(steps.drop_last());
    }
}

proof fn lemma_first_stop_bound(steps: Seq<StepOutcome>)
    ensures
        first_stop(steps) <= steps.len(),
    decreases steps.len(),
{
    if steps.len() > 0 {
        lemma_first_stop_bound(steps.drop_first());
    }
}

/// Every event that reading the ledger yields has the supported schema
/// version, a timestamp after the epoch, and some token usage; and there are no more of them than rows read before the
/// query stopped.
pub proof fn law_loaded_events_are_supported(read: LedgerRead)
    ensures
        forall|i: int| 0 <= i < ledger_events(read).len() ==> accepted(#[trigger] ledger_events(read)[i]),
        ledger_events(read).len() <= match read {
            LedgerRead::Steps(steps) => first_stop(steps@),
            _ => 0,
        },
{
    if let LedgerRead::Steps(steps) = read {
        lemma_first_stop_bound(steps@);
        lemma_events_of_accepted(steps@.take(first_stop(steps@) as int));
    }
}

/// Two entries agree on everything but their report date.
pub open spec fn same_but_date(a: EntryView, b: EntryView) -> bool {
    &&& a.event_id == b.event_id
    &&& a.occurred_at_ms == b.occurred_at_ms
    &&& a.timestamp == b.timestamp
    &&& a.project == b.project
    &&& a.session_id == b.session_id
    &&& a.project_path == b.project_path
    &&& a.model == b.model
    &&& a.version == b.version
    &&& a.usage == b.usage
    &&& a.extra_total_tokens == b.extra_total_tokens
    &&& a.cost_usd_micros == b.cost_usd_micros
    &&& a.pricing_model == b.pricing_model
    &&& a.cost_basis == b.cost_basis
    &&& a.missing_pricing_model == b.missing_pricing_model
}

/// An event fixes every field of its entry but the report date, which only
/// the time zone's offset at that instant decides; when jiff cannot
/// represent the instant, it fixes the date too (the UTC date). So any two
/// entries made from one event (by `event_to_entry`, or by the loaders)
/// agree on all else.
pub proof fn law_entry_fixed_but_for_date(
    a: RhoEntry,
    b: RhoEntry,
    ev: RhoUsageEvent,
    mode: CostMode,
    priced: Seq<Seq<char>>,
)
    requires
        entry_from(a, ev, mode, priced),
        entry_from(b, ev, mode, priced),
    ensures
        same_but_date(a@, b@),
        !representable(ev.occurred_at_ms) ==> a@ == b@,
{
}

/// Any two loads of the same ledger events give as many entries, in the
/// same order, agreeing on all but their report dates.
pub proof fn law_loads_agree_but_for_date(
    a: Seq<RhoEntry>,
    b: Seq<RhoEntry>,
    evs: Seq<RhoUsageEvent>,
    mode: CostMode,
    priced: Seq<Seq<char>>,
)
    requires
        entries_match(a, evs, mode, priced),
        entries_match(b, evs, mode, priced),
    ensures
        a.len() == b.len(),
        forall|i: int| 0 <= i < a.len() ==> same_but_date(#[trigger] a[i]@, b[i]@),
{
    assert forall|i: int| 0 <= i < a.len() implies same_but_date(#[trigger] a[i]@, b[i]@) by {
        assert(entry_from(a[i], evs[i], mode, priced));
        assert(entry_from(b[i], evs[i], mode, priced));
        law_entry_fixed_but_for_date(a[i], b[i], evs[i], mode, priced);
    }
}

/// Session grouping: an entry's session is the event's session id whenever
/// that is present and not empty, whatever the run id holds; the run id
/// only when the session id is missing or empty; the event id only when
/// both are. A missing or empty workspace path is reported as `Rho`.
pub proof fn law_session_and_project_fallbacks(
    ev: RhoUsageEvent,
    date: CivilDate,
    mode: CostMode,
    priced: Seq<Seq<char>>,
)
    ensures
        spec_entry(ev, date, mode, priced) matches Some(e) ==> {
            let has_session = ev.session_id is Some && ev.session_id->0@.len() > 0;
            let has_run = ev.run_id is Some && ev.run_id->0@.len() > 0;
            &&& has_session ==> e.session_id == ev.session_id->0@
            &&& !has_session && has_run ==> e.session_id == ev.run_id->0@
            &&& !has_session && !has_run ==> e.session_id == ev.event_id@
            &&& (ev.workspace_path is Some && ev.workspace_path->0@.len() > 0) ==> e.project_path
                == ev.workspace_path->0@
            &&& !(ev.workspace_path is Some && ev.workspace_path->0@.len() > 0) ==> e.project_path
                == seq!['R', 'h', 'o']
        },
{
}

/// Every provider-reported cost of zero or more is kept, in USD micros:
/// `auto` and `display` then take it as the entry's cost, and no missing
/// price is reported. A missing or negative stored cost counts as none:
/// `auto` then calculates and `display` shows zero.
pub proof fn law_stored_cost_kept(
    ev: RhoUsageEvent,
    date: CivilDate,
    mode: CostMode,
    priced: Seq<Seq<char>>,
)
    ensures
        spec_entry(ev, date, mode, priced) matches Some(e) ==> {
            let has_cost = ev.cost_usd_micros is Some && ev.cost_usd_micros->0 >= 0;
            &&& has_cost ==> e.cost_usd_micros == Some(ev.cost_usd_micros->0 as u64)
            &&& has_cost && mode != CostMode::Calculate ==> e.cost_basis == CostBasis::Stored(
                ev.cost_usd_micros->0 as u64,
            ) && e.missing_pricing_model is None
            &&& !has_cost ==> e.cost_usd_micros is None
            &&& !has_cost && mode == CostMode::Auto ==> e.cost_basis == CostBasis::Calculated
            &&& !has_cost && mode == CostMode::Display ==> e.cost_basis == CostBasis::Zero
            &&& mode == CostMode::Calculate ==> e.cost_basis == CostBasis::Calculated
        },
{
}

/// The ledger is looked for at `$RHO_HOME/usage.sqlite3` when `RHO_HOME`
/// is a non-empty string, and otherwise (unset or empty alike) at
/// `~/.rho/usage.sqlite3` when the home directory is known; with neither
/// there is no path.
pub proof fn law_ledger_path(rho_home: Option<String>, home_dir: Option<String>)
    ensures
        (rho_home is Some && rho_home->0@.len() > 0) ==> db_path_of(rho_home, home_dir) == Some(
            seq![rho_home->0@, RHO_DB_FILE_NAME@],
        ),
        !(rho_home is Some && rho_home->0@.len() > 0) && home_dir is Some ==> db_path_of(
            rho_home,
            home_dir,
        ) == Some(seq![home_dir->0@, RHO_DIR_NAME@, RHO_DB_FILE_NAME@]),
        !(rho_home is Some && rho_home->0@.len() > 0) && home_dir is None ==> db_path_of(
            rho_home,
            home_dir,
        ) is None,
{
}

/// `RHO_HOME` counts only through whether it is a non-empty string: unset
/// and empty give the same path.
pub proof fn law_ledger_path_unset_is_empty(home_dir: Option<String>, empty: String)
    requires
        empty@.len() == 0,
    ensures
        db_path_of(None, home_dir) == db_path_of(Some(empty), home_dir),
{
}

} // verus!
