use vstd::prelude::*;
use vstd::string::*;
use crate::calendar::{utc_datetime, utc_datetime_of, CivilDate};
use crate::clock::{
    date_text, format_date, format_rfc3339_millis, near_utc_date, report_date, representable,
    timestamp_text,
};
use crate::text::{dashes_to_underscores, replace_dashes};
use jiff::tz::TimeZone;

verus! {

broadcast use vstd::string::group_string_axioms;

/// The ledger schema version that this library reads.
pub const SCHEMA_VERSION: i64 = 1;

/// One row of Rho's `usage_events` table: one provider request.
#[derive(Clone, Debug, PartialEq, Eq)]
pub struct RhoUsageEvent {
    pub event_id: String,
    pub schema_version: i64,
    pub occurred_at_ms: i64,
    pub session_id: Option<String>,
    pub run_id: Option<String>,
    pub workspace_path: Option<String>,
    pub provider: String,
    pub model: String,
    pub input_tokens: Option<i64>,
    pub output_tokens: Option<i64>,
    pub cache_read_tokens: Option<i64>,
    pub cache_write_tokens: Option<i64>,
    pub total_tokens: Option<i64>,
    pub cost_usd_micros: Option<i64>,
    pub rho_version: Option<String>,
}

/// Token counts by category, as reports use them.
#[derive(Clone, Copy, Debug, PartialEq, Eq, Structural)]
pub struct TokenUsage {
    pub input_tokens: u64,
    pub output_tokens: u64,
    pub cache_creation_input_tokens: u64,
    pub cache_read_input_tokens: u64,
}

/// How a report prices usage.
#[derive(Clone, Copy, Debug, PartialEq, Eq, Structural)]
pub enum CostMode {
    /// The stored provider cost when there is one, else a calculated cost.
    Auto,
    /// Always a cost calculated from the token counts.
    Calculate,
    /// The stored provider cost, or zero when there is none.
    Display,
}

/// Where an entry's cost comes from.
#[derive(Clone, Copy, Debug, PartialEq, Eq, Structural)]
pub enum CostBasis {
    /// The provider-reported cost, in USD micros.
    Stored(u64),
    /// A cost to be calculated from the token counts and model prices.
    Calculated,
    /// No cost.
    Zero,
}

/// The models that the pricing table holds prices for.
#[derive(Clone, Debug, PartialEq, Eq)]
pub struct PricingCatalog {
    pub models: Vec<String>,
}

/// One usage entry of a report, made from one ledger event.
#[derive(Clone, Debug, PartialEq, Eq)]
pub struct RhoEntry {
    pub event_id: String,
    pub occurred_at_ms: i64,
    /// The instant in UTC, `YYYY-MM-DDTHH:MM:SS.mmmZ`.
    pub timestamp: String,
    /// The calendar date in the report's time zone, `YYYY-MM-DD`.
    pub date: String,
    pub project: String,
    pub session_id: String,
    pub project_path: String,
    pub model: String,
    pub version: Option<String>,
    pub usage: TokenUsage,
    /// Tokens in the event's total that no category accounts for.
    pub extra_total_tokens: u64,
    /// The provider-reported cost in USD micros, when there is a usable one.
    pub cost_usd_micros: Option<u64>,
    /// The model name under which a calculated cost is priced.
    pub pricing_model: String,
    pub cost_basis: CostBasis,
    /// The model to report as having no price, when the cost is to be
    /// calculated and the catalog prices none of the model's names.
    pub missing_pricing_model: Option<String>,
}

/// The mathematical content of a `RhoEntry`.
pub struct EntryView {
    pub event_id: Seq<char>,
    pub occurred_at_ms: i64,
    pub timestamp: Seq<char>,
    pub date: Seq<char>,
    pub project: Seq<char>,
    pub session_id: Seq<char>,
    pub project_path: Seq<char>,
    pub model: Seq<char>,
    pub version: Option<Seq<char>>,
    pub usage: TokenUsage,
    pub extra_total_tokens: u64,
    pub cost_usd_micros: Option<u64>,
    pub pricing_model: Seq<char>,
    pub cost_basis: CostBasis,
    pub missing_pricing_model: Option<Seq<char>>,
}

pub open spec fn text_view(o: Option<String>) -> Option<Seq<char>> {
    match o {
        Some(s) => Some(s@),
        None => None,
    }
}

pub open spec fn views(v: Seq<String>) -> Seq<Seq<char>> {
    v.map_values(|s: String| s@)
}

impl View for RhoEntry {
    type V = EntryView;

    open spec fn view(&self) -> EntryView {
        EntryView {
            event_id: self.event_id@,
            occurred_at_ms: self.occurred_at_ms,
            timestamp: self.timestamp@,
            date: self.date@,
            project: self.project@,
            session_id: self.session_id@,
            project_path: self.project_path@,
            model: self.model@,
            version: text_view(self.version),
            usage: self.usage,
            extra_total_tokens: self.extra_total_tokens,
            cost_usd_micros: self.cost_usd_micros,
            pricing_model: self.pricing_model@,
            cost_basis: self.cost_basis,
            missing_pricing_model: text_view(self.missing_pricing_model),
        }
    }
}

impl View for PricingCatalog {
    type V = Seq<Seq<char>>;

    open spec fn view(&self) -> Seq<Seq<char>> {
        views(self.models@)
    }
}

/// A ledger count read as a token count: a present value that is zero or
/// more is kept; a missing or negative one counts as zero.
pub open spec fn count_of(value: Option<i64>) -> u64 {
    match value {
        Some(v) => if v >= 0 { v as u64 } else { 0 },
        None => 0,
    }
}

/// The event's token counts by category; the ledger's cache writes are the
/// report's cache creation tokens.
pub open spec fn usage_of(ev: RhoUsageEvent) -> TokenUsage {
    TokenUsage {
        input_tokens: count_of(ev.input_tokens),
        output_tokens: count_of(ev.output_tokens),
        cache_creation_input_tokens: count_of(ev.cache_write_tokens),
        cache_read_input_tokens: count_of(ev.cache_read_tokens),
    }
}

/// The sum of the four categories, held at `u64::MAX` where it would pass it.
pub open spec fn known_tokens(u: TokenUsage) -> u64 {
    let s = u.input_tokens + u.output_tokens + u.cache_creation_input_tokens
        + u.cache_read_input_tokens;
    if s > u64::MAX { u64::MAX } else { s as u64 }
}

/// How far the event's total exceeds the sum of its categories (zero when
/// it does not).
pub open spec fn extra_tokens(ev: RhoUsageEvent) -> u64 {
    let total = count_of(ev.total_tokens);
    let known = known_tokens(usage_of(ev));
    if total > known { (total - known) as u64 } else { 0 }
}

/// Whether an event becomes a report entry: it has the supported schema
/// version, a timestamp after the epoch, and some token usage.
pub open spec fn accepted(ev: RhoUsageEvent) -> bool {
    &&& ev.schema_version == SCHEMA_VERSION
    &&& ev.occurred_at_ms > 0
    &&& !(known_tokens(usage_of(ev)) == 0 && extra_tokens(ev) == 0)
}

/// The text of an optional field, when it is present and not empty.
pub open spec fn nonempty_text(o: Option<String>) -> Option<Seq<char>> {
    match o {
        Some(s) => if s@.len() > 0 { Some(s@) } else { None },
        None => None,
    }
}

/// The session an event is grouped under: its session id, else its run id,
/// else its event id.
pub open spec fn session_of(ev: RhoUsageEvent) -> Seq<char> {
    match nonempty_text(ev.session_id) {
        Some(s) => s,
        None => match nonempty_text(ev.run_id) {
            Some(r) => r,
            None => ev.event_id@,
        },
    }
}

/// The name under which events without a workspace path are reported.
pub open spec fn default_project_path() -> Seq<char> {
    seq!['R', 'h', 'o']
}

/// The project every entry of this ledger belongs to.
pub open spec fn project_name() -> Seq<char> {
    seq!['r', 'h', 'o']
}

/// The event's workspace path, or `Rho` when it has none.
pub open spec fn project_path_of(ev: RhoUsageEvent) -> Seq<char> {
    match nonempty_text(ev.workspace_path) {
        Some(w) => w,
        None => default_project_path(),
    }
}

/// The provider-reported cost, when the event has one that is not negative.
pub open spec fn stored_cost_of(ev: RhoUsageEvent) -> Option<u64> {
    match ev.cost_usd_micros {
        Some(v) => if v >= 0 { Some(v as u64) } else { None },
        None => None,
    }
}

/// Where the cost comes from under `mode`, given the stored cost.
pub open spec fn basis_of(mode: CostMode, stored: Option<u64>) -> CostBasis {
    match mode {
        CostMode::Auto => match stored {
            Some(m) => CostBasis::Stored(m),
            None => CostBasis::Calculated,
        },
        CostMode::Calculate => CostBasis::Calculated,
        CostMode::Display => match stored {
            Some(m) => CostBasis::Stored(m),
            None => CostBasis::Zero,
        },
    }
}

/// Whether a missing model price is looked for under `mode`.
pub open spec fn checks_missing_pricing_of(mode: CostMode, stored: Option<u64>) -> bool {
    match mode {
        CostMode::Display => false,
        CostMode::Auto => stored is None,
        CostMode::Calculate => true,
    }
}

/// The model to report as unpriced: the model itself, when a missing price
/// is looked for under `mode` and `priced` lacks the model name chosen for
/// pricing.
pub open spec fn missing_pricing_of(
    mode: CostMode,
    stored: Option<u64>,
    pricing_model: Seq<char>,
    model: Seq<char>,
    priced: Seq<Seq<char>>,
) -> Option<Seq<char>> {
    if checks_missing_pricing_of(mode, stored) && !priced.contains(pricing_model) {
        Some(model)
    } else {
        None
    }
}

/// Whether a (normalised) provider name qualifies a model name.
pub open spec fn qualifies(provider: Seq<char>) -> bool {
    &&& provider.len() > 0
    &&& provider != seq!['u', 'n', 'k', 'n', 'o', 'w', 'n']
    &&& provider != seq!['r', 'h', 'o']
}

/// The names to look a model up under, in order: `provider/model` (with
/// `-` in the provider written `_`) when the provider qualifies, then the
/// model itself.
pub open spec fn candidates_of(model: Seq<char>, provider: Seq<char>) -> Seq<Seq<char>> {
    let p = dashes_to_underscores(provider);
    if qualifies(p) {
        seq![p + seq!['/'] + model, model]
    } else {
        seq![model]
    }
}

/// The first candidate that `priced` holds, else `fallback`.
pub open spec fn first_priced(cands: Seq<Seq<char>>, priced: Seq<Seq<char>>, fallback: Seq<char>) -> Seq<char>
    decreases cands.len(),
{
    if cands.len() == 0 {
        fallback
    } else if priced.contains(cands[0]) {
        cands[0]
    } else {
        first_priced(cands.drop_first(), priced, fallback)
    }
}

/// The entry that an event gives when it is reported under `date`, or
/// `None` when the event is not accepted.
pub open spec fn spec_entry(
    ev: RhoUsageEvent,
    date: CivilDate,
    mode: CostMode,
    priced: Seq<Seq<char>>,
) -> Option<EntryView> {
    if !accepted(ev) {
        None
    } else {
        let stored = stored_cost_of(ev);
        let pricing_model = first_priced(candidates_of(ev.model@, ev.provider@), priced, ev.model@);
        Some(EntryView {
            event_id: ev.event_id@,
            occurred_at_ms: ev.occurred_at_ms,
            timestamp: timestamp_text(utc_datetime_of(ev.occurred_at_ms as int)),
            date: date_text(date),
            project: project_name(),
            session_id: session_of(ev),
            project_path: project_path_of(ev),
            model: ev.model@,
            version: text_view(ev.rho_version),
            usage: usage_of(ev),
            extra_total_tokens: extra_tokens(ev),
            cost_usd_micros: stored,
            pricing_model,
            cost_basis: basis_of(mode, stored),
            missing_pricing_model: missing_pricing_of(mode, stored, pricing_model, ev.model@, priced),
        })
    }
}

/// `d` is a date that an event at `ms` can be reported under: the UTC date
/// of the instant moved by an offset that jiff supports, and the UTC date
/// itself when jiff cannot represent the instant.
pub open spec fn possible_report_date(ms: i64, d: CivilDate) -> bool {
    &&& d.in_range()
    &&& near_utc_date(ms as int, d)
    &&& !representable(ms) ==> d == utc_datetime_of(ms as int).date()
}

/// `e` is the entry that `ev` gives under one of its possible report dates.
pub open spec fn entry_from(e: RhoEntry, ev: RhoUsageEvent, mode: CostMode, priced: Seq<Seq<char>>) -> bool {
    exists|d: CivilDate|
        possible_report_date(ev.occurred_at_ms, d) && #[trigger] spec_entry(ev, d, mode, priced)
            == Some(e@)
}

/// Reads an optional signed ledger count as a token count.
pub fn non_negative(value: Option<i64>) -> (count: u64)
    ensures
        count == count_of(value),
{
    match value {
        Some(v) => if v >= 0 { v as u64 } else { 0 },
        None => 0,
    }
}

/// The sum of the four token categories, held at `u64::MAX`.
pub fn total_usage_tokens(usage: TokenUsage) -> (total: u64)
    ensures
        total == known_tokens(usage),
{
    usage.input_tokens.saturating_add(usage.output_tokens).saturating_add(
        usage.cache_creation_input_tokens,
    ).saturating_add(usage.cache_read_input_tokens)
}

/// The names under which a model's price is looked up, most specific first.
pub fn model_candidates(model: &str, provider: &str) -> (candidates: Vec<String>)
    ensures
        views(candidates@) == candidates_of(model@, provider@),
        candidates@.len() == 2 ==> candidates@[0]@ != candidates@[1]@,
{
    let normalized = replace_dashes(provider);
    let unknown = "unknown".to_owned();
    let rho = "rho".to_owned();
    proof {
        reveal_strlit("unknown");
        reveal_strlit("rho");
        reveal_strlit("/");
        assert(unknown@ == seq!['u', 'n', 'k', 'n', 'o', 'w', 'n']);
        assert(rho@ == seq!['r', 'h', 'o']);
        assert("/"@ == seq!['/']);
    }
    let mut candidates: Vec<String> = Vec::new();
    if !normalized.as_str().is_empty() && !(normalized == unknown) && !(normalized == rho) {
        let mut qualified = normalized.clone();
        qualified.append("/");
        qualified.append(model);
        candidates.push(qualified);
    }
    candidates.push(model.to_owned());
    assert(views(candidates@) =~= candidates_of(model@, provider@));
    candidates
}

impl PricingCatalog {
    /// Whether the catalog holds a price for exactly this model name.
    pub fn find(&self, name: &String) -> (found: bool)
        ensures
            found == self@.contains(name@),
    {
        let mut i: usize = 0;
        while i < self.models.len()
            invariant
                i <= self.models@.len(),
                forall|j: int| 0 <= j < i ==> self.models@[j]@ != name@,
            decreases self.models@.len() - i,
        {
            if self.models[i] == *name {
                assert(self@[i as int] == name@);
                return true;
            }
            i = i + 1;
        }
        assert(!self@.contains(name@)) by {
            if self@.contains(name@) {
                let k = choose|k: int| 0 <= k < self@.len() && self@[k] == name@;
                assert(self.models@[k]@ == name@);
            }
        }
        false
    }
}

/// The model name to price with: the first candidate that the catalog
/// holds, else the model itself.
pub fn select_pricing_model(candidates: &Vec<String>, catalog: &PricingCatalog, model: &str) -> (chosen: String)
    ensures
        chosen@ == first_priced(views(candidates@), catalog@, model@),
{
    let ghost cands = views(candidates@);
    assert(cands.skip(0) == cands);
    let mut i: usize = 0;
    while i < candidates.len()
        invariant
            i <= candidates@.len(),
            cands == views(candidates@),
            first_priced(cands, catalog@, model@) == first_priced(cands.skip(i as int), catalog@, model@),
        decreases candidates@.len() - i,
    {
        assert(cands.skip(i as int)[0] == candidates@[i as int]@);
        assert(cands.skip(i as int).drop_first() == cands.skip(i + 1));
        if catalog.find(&candidates[i]) {
            return candidates[i].clone();
        }
        i = i + 1;
    }
    model.to_owned()
}

/// Where the cost of an entry comes from under `mode`.
pub fn cost_basis(mode: CostMode, stored: Option<u64>) -> (basis: CostBasis)
    ensures
        basis == basis_of(mode, stored),
{
    match mode {
        CostMode::Auto => match stored {
            Some(m) => CostBasis::Stored(m),
            None => CostBasis::Calculated,
        },
        CostMode::Calculate => CostBasis::Calculated,
        CostMode::Display => match stored {
            Some(m) => CostBasis::Stored(m),
            None => CostBasis::Zero,
        },
    }
}

fn nonempty_clone(o: &Option<String>) -> (r: Option<String>)
    ensures
        text_view(r) == nonempty_text(*o),
{
    match o {
        Some(s) => if s.as_str().is_empty() { None } else { Some(s.clone()) },
        None => None,
    }
}

/// Turns a ledger event into a report entry reported under `date` (its
/// date in the report's time zone); `None` when the event has another
/// schema version, a timestamp not after the epoch, or no token usage at
/// all.
pub fn event_to_entry_at(
    event: RhoUsageEvent,
    date: CivilDate,
    mode: CostMode,
    catalog: &PricingCatalog,
) -> (entry: Option<RhoEntry>)
    requires
        date.in_range(),
    ensures
        match entry {
            Some(e) => spec_entry(event, date, mode, catalog@) == Some(e@),
            None => spec_entry(event, date, mode, catalog@) is None,
        },
{
    if event.schema_version != SCHEMA_VERSION || event.occurred_at_ms <= 0 {
        return None;
    }
    let usage = TokenUsage {
        input_tokens: non_negative(event.input_tokens),
        output_tokens: non_negative(event.output_tokens),
        cache_creation_input_tokens: non_negative(event.cache_write_tokens),
        cache_read_input_tokens: non_negative(event.cache_read_tokens),
    };
    let total_tokens = non_negative(event.total_tokens);
    let known = total_usage_tokens(usage);
    let extra_total_tokens = total_tokens.saturating_sub(known);
    if known == 0 && extra_total_tokens == 0 {
        return None;
    }
    let session_id = match nonempty_clone(&event.session_id) {
        Some(s) => s,
        None => match nonempty_clone(&event.run_id) {
            Some(r) => r,
            None => event.event_id.clone(),
        },
    };
    let project_path = match nonempty_clone(&event.workspace_path) {
        Some(w) => w,
        None => "Rho".to_owned(),
    };
    let stored = match event.cost_usd_micros {
        Some(v) => if v >= 0 { Some(v as u64) } else { None },
        None => None,
    };
    let candidates = model_candidates(event.model.as_str(), event.provider.as_str());
    let pricing_model = select_pricing_model(&candidates, catalog, event.model.as_str());
    let checks_missing_pricing = match mode {
        CostMode::Display => false,
        CostMode::Auto => stored.is_none(),
        CostMode::Calculate => true,
    };
    let missing_pricing_model = if checks_missing_pricing && !catalog.find(&pricing_model) {
        Some(event.model.clone())
    } else {
        None
    };
    let entry = RhoEntry {
        event_id: event.event_id,
        occurred_at_ms: event.occurred_at_ms,
        timestamp: format_rfc3339_millis(utc_datetime(event.occurred_at_ms)),
        date: format_date(date),
        project: "rho".to_owned(),
        session_id,
        project_path,
        model: event.model,
        version: event.rho_version,
        usage,
        extra_total_tokens,
        cost_usd_micros: stored,
        pricing_model,
        cost_basis: cost_basis(mode, stored),
        missing_pricing_model,
    };
    proof {
        reveal_strlit("Rho");
        reveal_strlit("rho");
        assert(entry.project@ == project_name());
        assert(entry.project_path@ == project_path_of(event));
    }
    Some(entry)
}

/// Turns a ledger event into a report entry, dating it in `tz` (in the
/// system time zone when no zone is given, and in UTC when jiff cannot
/// represent the instant); `None` exactly when the event has another schema
/// version, a timestamp not after the epoch, or no token usage at all.
pub fn event_to_entry(
    event: RhoUsageEvent,
    tz: Option<&TimeZone>,
    mode: CostMode,
    catalog: &PricingCatalog,
) -> (entry: Option<RhoEntry>)
    ensures
        entry is Some <==> accepted(event),
        entry matches Some(e) ==> entry_from(e, event, mode, catalog@),
{
    let ghost ev = event;
    let date = report_date(event.occurred_at_ms, tz);
    let r = event_to_entry_at(event, date, mode, catalog);
    proof {
        if let Some(e) = &r {
            assert(possible_report_date(ev.occurred_at_ms, date) && spec_entry(ev, date, mode, catalog@) == Some(e@));
        }
    }
    r
}

} // verus!
