//! The command-line interface's own logic: its commands, the normalization
//! of power mode arguments, and the tables and messages it shows for the
//! daemon's replies.

use vstd::prelude::*;
use comfy_table::Table;
use crate::power_model::{mode_name, mode_normal_form, mode_of_normal_form, lemma_mode_name_parses, PowerMode};
use crate::text::{append, concat, decimal, lowercase_of, owned, spec_decimal, spec_trim, str_eq, to_lowercase, trim, views};

verus! {

/// The power subcommands.
#[derive(Debug, Clone, PartialEq, Eq)]
pub enum PowerCommand {
    /// Set authoritative power mode (work, game-battery, game).
    Mode { mode: String },
    /// Show authoritative power status (active mode, PPD, EPP, CPU boost).
    Status,
    /// Set power profile (legacy command, routed through the power engine).
    SetProfile { profile: String },
    /// Set CPU power limits PL1 & PL2 in Watts.
    SetLimits { enabled: bool, pl1: i32, pl2: i32 },
    /// Apply CPU undervolt offset in mV (e.g. -50).
    Undervolt { mv: i32 },
    /// Set GPU Mux mode (hybrid, discrete, advanced).
    SetMux { mode: String },
    /// Get current power profile and limits.
    Info,
}

/// The fan subcommands.
#[derive(Debug, Clone, PartialEq, Eq)]
pub enum FanCommand {
    /// Get fan status and hardware telemetry.
    Status,
    /// Set fan mode to automatic BIOS hardware control.
    Auto,
    /// Set fan speed to a manual percentage (1-100%).
    Manual { percentage: u32 },
    /// Set fan mode (auto, manual, max).
    SetMode { mode: String },
    /// Set target RPM for a specific fan.
    SetTarget { fan_id: u32, rpm: u32 },
    /// Get current fan mode.
    Mode,
    /// Get detailed fans info.
    Info,
}

/// The message for a power mode argument that names no mode.
pub open spec fn invalid_mode_message(input: Seq<char>) -> Seq<char> {
    "Invalid power mode '"@ + spec_trim(input) + "'. Valid modes: work, game-battery, game"@
}

/// Normalizes and validates a command-line power mode to its canonical
/// name. The input is trimmed, lowercased and `_` is read as `-`; `work`,
/// `game-battery`/`gamebattery` and `game`/`game-plugged`/`gameplugged`
/// are accepted.
pub fn normalize_cli_power_mode(input: &str) -> (r: Result<String, String>)
    ensures
        match mode_of_normal_form(mode_normal_form(input@)) {
            Some(m) => r matches Ok(s) && s@ == mode_name(m),
            None => r matches Err(e) && e@ == invalid_mode_message(input@),
        },
{
    match PowerMode::parse(input) {
        Ok(m) => Ok(owned(m.as_str())),
        Err(_) => {
            let mut e = owned("Invalid power mode '");
            let t = trim(input);
            append(&mut e, t.as_str());
            append(&mut e, "'. Valid modes: work, game-battery, game");
            Err(e)
        },
    }
}

/// Law: a normalized power mode normalizes to itself.
pub proof fn lemma_normalize_idempotent(input: Seq<char>)
    ensures
        mode_of_normal_form(mode_normal_form(input)) matches Some(m) ==> mode_of_normal_form(
            mode_normal_form(mode_name(m)),
        ) == Some(m),
{
    if let Some(m) = mode_of_normal_form(mode_normal_form(input)) {
        lemma_mode_name_parses(m);
    }
}

/// The GPU mux mode that a `set-mux` argument denotes: its lowercase form,
/// when that is `hybrid`, `discrete` or `advanced`.
pub open spec fn mux_mode(mode: Seq<char>) -> Option<Seq<char>> {
    let l = lowercase_of(mode);
    if l == "hybrid"@ || l == "discrete"@ || l == "advanced"@ {
        Some(l)
    } else {
        None
    }
}

/// Validates a `set-mux` argument; none when it names no mux mode.
pub fn validate_mux_mode(mode: &str) -> (r: Option<String>)
    ensures
        match mux_mode(mode@) {
            Some(l) => r matches Some(s) && s@ == l,
            None => r is None,
        },
{
    let l = to_lowercase(mode);
    if str_eq(l.as_str(), "hybrid") || str_eq(l.as_str(), "discrete") || str_eq(
        l.as_str(),
        "advanced",
    ) {
        Some(l)
    } else {
        None
    }
}

/// `comfy_table::Table`, held opaque.
#[verifier::external_type_specification]
#[verifier::external_body]
pub struct ExTable(comfy_table::Table);

/// The header of a table: the content of each header cell, if a header was set.
pub uninterp spec fn table_header(t: Table) -> Option<Seq<Seq<char>>>;

/// The rows of a table: the content of each cell, row by row.
pub uninterp spec fn table_rows(t: Table) -> Seq<Seq<Seq<char>>>;

/// `comfy_table::Table::new`: a table with no header and no rows.
#[verifier::external_body]
fn table_new() -> (t: Table)
    ensures
        table_header(t) is None,
        table_rows(t) == Seq::<Seq<Seq<char>>>::empty(),
{
    Table::new()
}

/// `comfy_table::Table::set_header`: the header becomes one cell per string,
/// each holding that string; the rows are unchanged.
#[verifier::external_body]
fn table_set_header(t: &mut Table, cells: Vec<String>)
    ensures
        table_header(*final(t)) == Some(views(cells@)),
        table_rows(*final(t)) == table_rows(*old(t)),
{
    t.set_header(cells);
}

/// `comfy_table::Table::add_row`: one row is appended, one cell per string,
/// each holding that string; the header is unchanged.
#[verifier::external_body]
fn table_add_row(t: &mut Table, cells: Vec<String>)
    ensures
        table_rows(*final(t)) == table_rows(*old(t)).push(views(cells@)),
        table_header(*final(t)) == table_header(*old(t)),
{
    t.add_row(cells);
}

/// A table with a two-column header and two-column rows.
pub open spec fn pairs_view(rows: Seq<(String, String)>) -> Seq<Seq<Seq<char>>> {
    rows.map_values(|p: (String, String)| seq![p.0@, p.1@])
}

/// Build a table with the header `(h0, h1)` and one row per pair.
pub fn two_column_table(h0: &str, h1: &str, rows: &Vec<(String, String)>) -> (t: Table)
    ensures
        table_header(t) == Some(seq![h0@, h1@]),
        table_rows(t) == pairs_view(rows@),
{
    let mut t = table_new();
    let mut header: Vec<String> = Vec::new();
    header.push(owned(h0));
    header.push(owned(h1));
    assert(views(header@) =~= seq![h0@, h1@]);
    table_set_header(&mut t, header);
    let mut i: usize = 0;
    while i < rows.len()
        invariant
            i <= rows.len(),
            table_header(t) == Some(seq![h0@, h1@]),
            table_rows(t) == pairs_view(rows@.subrange(0, i as int)),
        decreases rows.len() - i,
    {
        let mut cells: Vec<String> = Vec::new();
        cells.push(rows[i].0.clone());
        cells.push(rows[i].1.clone());
        let ghost before = table_rows(t);
        table_add_row(&mut t, cells);
        assert(views(cells@) =~= seq![rows@[i as int].0@, rows@[i as int].1@]);
        assert(pairs_view(rows@.subrange(0, i + 1)) =~= before.push(views(cells@)));
        i = i + 1;
    }
    assert(rows@.subrange(0, rows@.len() as int) =~= rows@);
    t
}

/// A top-level value of a JSON object, as far as the status table reads it.
#[derive(Debug)]
pub enum JsonScalar {
    Str(String),
    Bool(bool),
    /// A number, null, array or object.
    Other,
}

/// The view of a top-level JSON value.
pub enum JsonScalarView {
    Str(Seq<char>),
    Bool(bool),
    Other,
}

/// The view of a top-level JSON value.
pub open spec fn scalar_view(v: JsonScalar) -> JsonScalarView {
    match v {
        JsonScalar::Str(s) => JsonScalarView::Str(s@),
        JsonScalar::Bool(b) => JsonScalarView::Bool(b),
        JsonScalar::Other => JsonScalarView::Other,
    }
}

/// The view of the entries of a JSON object.
pub open spec fn entries_view(v: Seq<(String, JsonScalar)>) -> Seq<(Seq<char>, JsonScalarView)> {
    v.map_values(|e: (String, JsonScalar)| (e.0@, scalar_view(e.1)))
}

/// What `serde_json::from_str` gives for a text when it parses to a JSON
/// object: its entries (key and top-level value); none when the text is
/// not JSON or not an object.
pub uninterp spec fn json_object_scalars(s: Seq<char>) -> Option<Seq<(Seq<char>, JsonScalarView)>>;

/// Calls `serde_json::from_str::<serde_json::Value>`; a parsed object is
/// handed out entry by entry, each value as a string, a boolean or other.
/// What it gives is named by `json_object_scalars`, a function of the text alone.
#[verifier::external_body]
fn parse_object_scalars(s: &str) -> (r: Option<Vec<(String, JsonScalar)>>)
    ensures
        match r {
            Some(v) => json_object_scalars(s@) == Some(entries_view(v@)),
            None => json_object_scalars(s@) is None,
        },
{
    match serde_json::from_str::<serde_json::Value>(s) {
        Ok(serde_json::Value::Object(map)) => Some(
            map.into_iter().map(|(k, v)| (k, match v {
                serde_json::Value::String(t) => JsonScalar::Str(t),
                serde_json::Value::Bool(b) => JsonScalar::Bool(b),
                _ => JsonScalar::Other,
            })).collect(),
        ),
        _ => None,
    }
}

/// The value of the first entry with key `k`, if any.
pub open spec fn lookup(e: Seq<(Seq<char>, JsonScalarView)>, k: Seq<char>) -> Option<JsonScalarView>
    decreases e.len(),
{
    if e.len() == 0 {
        None
    } else if e[0].0 == k {
        Some(e[0].1)
    } else {
        lookup(e.drop_first(), k)
    }
}

/// The string under key `k`, if there is one.
pub open spec fn lookup_str(e: Seq<(Seq<char>, JsonScalarView)>, k: Seq<char>) -> Option<Seq<char>> {
    match lookup(e, k) {
        Some(JsonScalarView::Str(s)) => Some(s),
        _ => None,
    }
}

/// The boolean under key `k`, if there is one.
pub open spec fn lookup_bool(e: Seq<(Seq<char>, JsonScalarView)>, k: Seq<char>) -> Option<bool> {
    match lookup(e, k) {
        Some(JsonScalarView::Bool(b)) => Some(b),
        _ => None,
    }
}

/// The value of `o`, or `d` when there is none.
pub open spec fn or_else(o: Option<Seq<char>>, d: Seq<char>) -> Seq<char> {
    match o {
        Some(s) => s,
        None => d,
    }
}

/// The four rows of the power status table for a mode and its definition.
pub open spec fn status_table_rows(mode: Seq<char>, ppd: Seq<char>, epp: Seq<char>, boost: Seq<char>) -> Seq<Seq<Seq<char>>> {
    seq![
        seq!["Authoritative Mode"@, mode],
        seq!["ACPI Platform Profile"@, ppd],
        seq!["CPU Energy Performance Preference (EPP)"@, epp],
        seq!["CPU Core Performance Boost"@, boost],
    ]
}

/// The rows of the power status table: from the definition object when it
/// is a non-empty JSON object (a missing mode is the active mode, another
/// missing value `unknown`, the boost flag `ON`/`OFF`); otherwise from the
/// static definition of the active mode's lowercase name.
pub open spec fn status_rows(active_mode: Seq<char>, def: Option<Seq<(Seq<char>, JsonScalarView)>>) -> Seq<Seq<Seq<char>>> {
    match def {
        Some(e) if e.len() > 0 => status_table_rows(
            or_else(lookup_str(e, "mode"@), active_mode),
            or_else(lookup_str(e, "platform_profile"@), "unknown"@),
            or_else(lookup_str(e, "epp"@), "unknown"@),
            match lookup_bool(e, "boost"@) {
                Some(true) => "ON"@,
                Some(false) => "OFF"@,
                None => "unknown"@,
            },
        ),
        _ => {
            let l = lowercase_of(active_mode);
            if l == "work"@ {
                status_table_rows(active_mode, "balanced"@, "balance_power"@, "ON"@)
            } else if l == "game-battery"@ {
                status_table_rows(active_mode, "power-saver"@, "power"@, "OFF"@)
            } else if l == "game"@ || l == "game-plugged"@ {
                status_table_rows(active_mode, "performance"@, "performance"@, "ON"@)
            } else {
                status_table_rows(active_mode, "unknown"@, "unknown"@, "unknown"@)
            }
        },
    }
}

/// The first entry with key `k`, as an index, if any.
fn find_key(e: &Vec<(String, JsonScalar)>, k: &str) -> (r: Option<usize>)
    ensures
        match r {
            Some(i) => i < e@.len() && lookup(entries_view(e@), k@) == Some(
                scalar_view(e@[i as int].1),
            ),
            None => lookup(entries_view(e@), k@) is None,
        },
{
    let mut i: usize = 0;
    assert(entries_view(e@).skip(0) =~= entries_view(e@));
    while i < e.len()
        invariant
            i <= e.len(),
            lookup(entries_view(e@), k@) == lookup(entries_view(e@).skip(i as int), k@),
        decreases e.len() - i,
    {
        let ghost rest = entries_view(e@).skip(i as int);
        assert(rest.drop_first() =~= entries_view(e@).skip(i + 1));
        if str_eq(e[i].0.as_str(), k) {
            return Some(i);
        }
        i = i + 1;
    }
    None
}

fn find_str(e: &Vec<(String, JsonScalar)>, k: &str, d: &str) -> (r: String)
    ensures
        r@ == or_else(lookup_str(entries_view(e@), k@), d@),
{
    match find_key(e, k) {
        Some(i) => match &e[i].1 {
            JsonScalar::Str(s) => s.clone(),
            _ => owned(d),
        },
        None => owned(d),
    }
}

fn find_boost(e: &Vec<(String, JsonScalar)>) -> (r: &'static str)
    ensures
        r@ == match lookup_bool(entries_view(e@), "boost"@) {
            Some(true) => "ON"@,
            Some(false) => "OFF"@,
            None => "unknown"@,
        },
{
    match find_key(e, "boost") {
        Some(i) => match &e[i].1 {
            JsonScalar::Bool(true) => "ON",
            JsonScalar::Bool(false) => "OFF",
            _ => "unknown",
        },
        None => "unknown",
    }
}

fn status_pairs(mode: String, ppd: String, epp: String, boost: String) -> (r: Vec<(String, String)>)
    ensures
        pairs_view(r@) == status_table_rows(mode@, ppd@, epp@, boost@),
{
    let mut r: Vec<(String, String)> = Vec::new();
    r.push((owned("Authoritative Mode"), mode));
    r.push((owned("ACPI Platform Profile"), ppd));
    r.push((owned("CPU Energy Performance Preference (EPP)"), epp));
    r.push((owned("CPU Core Performance Boost"), boost));
    assert(pairs_view(r@) =~= status_table_rows(r@[0].1@, r@[1].1@, r@[2].1@, r@[3].1@));
    r
}

/// The rows of the power status table for the active mode and what parsing
/// the definition JSON gave.
pub fn power_status_rows(active_mode: &str, def: Option<Vec<(String, JsonScalar)>>) -> (r: Vec<(String, String)>)
    ensures
        pairs_view(r@) == status_rows(
            active_mode@,
            match def {
                Some(v) => Some(entries_view(v@)),
                None => None,
            },
        ),
{
    match def {
        Some(e) => {
            if e.len() > 0 {
                let mode = find_str(&e, "mode", active_mode);
                let ppd = find_str(&e, "platform_profile", "unknown");
                let epp = find_str(&e, "epp", "unknown");
                let boost = owned(find_boost(&e));
                return status_pairs(mode, ppd, epp, boost);
            }
        },
        None => {},
    }
    let l = to_lowercase(active_mode);
    let (ppd, epp, boost) = if str_eq(l.as_str(), "work") {
        ("balanced", "balance_power", "ON")
    } else if str_eq(l.as_str(), "game-battery") {
        ("power-saver", "power", "OFF")
    } else if str_eq(l.as_str(), "game") || str_eq(l.as_str(), "game-plugged") {
        ("performance", "performance", "ON")
    } else {
        ("unknown", "unknown", "unknown")
    };
    status_pairs(owned(active_mode), owned(ppd), owned(epp), owned(boost))
}

/// Builds the table of the authoritative power status, from the active mode
/// and the JSON of its definition.
pub fn format_power_status_table(active_mode: &str, def_json: &str) -> (t: Table)
    ensures
        table_header(t) == Some(seq!["Property"@, "Value"@]),
        table_rows(t) == status_rows(active_mode@, json_object_scalars(def_json@)),
{
    let parsed = parse_object_scalars(def_json);
    let rows = power_status_rows(active_mode, parsed);
    two_column_table("Property", "Value", &rows)
}

/// One fan of the daemon's fan status reply.
#[derive(Debug, Clone, PartialEq, Eq)]
pub struct FanRpmReport {
    pub id: Option<u64>,
    pub current_rpm: Option<u64>,
    pub max_rpm: Option<u64>,
}

/// What the fan status table reads of the daemon's fan status reply: each
/// field when present with the expected JSON type.
#[derive(Debug, Clone, PartialEq, Eq)]
pub struct FanStatusReport {
    pub mode: Option<String>,
    pub pwm_enable: Option<u64>,
    pub percentage: Option<u64>,
    pub pwm_duty: Option<u64>,
    pub fans: Option<Vec<FanRpmReport>>,
    pub thermal_protection_active: Option<bool>,
}

/// One fan of the daemon's fan info reply.
#[derive(Debug, Clone, PartialEq, Eq)]
pub struct FanInfoReport {
    pub fan_id: String,
    pub current: Option<u64>,
    pub target: Option<u64>,
    pub max: Option<u64>,
}

/// The value, or zero when there is none.
pub open spec fn or_zero(o: Option<u64>) -> nat {
    match o {
        Some(v) => v as nat,
        None => 0,
    }
}

/// The description of a `pwm1_enable` value.
pub open spec fn pwm_enable_text(v: u64) -> Seq<char> {
    if v == 0 {
        "0 (Max Full Speed)"@
    } else if v == 1 {
        "1 (Manual PWM Control)"@
    } else if v == 2 {
        "2 (Auto / BIOS Hardware Thermal Table)"@
    } else {
        "Unknown"@
    }
}

/// The description of a `pwm1_enable` value.
pub fn pwm_enable_description(v: u64) -> (r: &'static str)
    ensures
        r@ == pwm_enable_text(v),
{
    if v == 0 {
        "0 (Max Full Speed)"
    } else if v == 1 {
        "1 (Manual PWM Control)"
    } else if v == 2 {
        "2 (Auto / BIOS Hardware Thermal Table)"
    } else {
        "Unknown"
    }
}

/// The row of one fan in the status table.
pub open spec fn fan_rpm_row(f: FanRpmReport) -> Seq<Seq<char>> {
    seq![
        "Fan "@ + spec_decimal(or_zero(f.id)) + " RPM"@,
        spec_decimal(or_zero(f.current_rpm)) + " RPM (Max: "@ + spec_decimal(or_zero(f.max_rpm))
            + " RPM)"@,
    ]
}

/// The rows of the fan status table: the mode, the PWM mode, the effective
/// speed, the raw duty, one row per fan and the thermal protection flag,
/// each when the reply holds it.
pub open spec fn fan_status_rows(r: FanStatusReport) -> Seq<Seq<Seq<char>>> {
    (match r.mode {
        Some(m) => seq![seq!["Fan Mode"@, m@]],
        None => seq![],
    }) + (match r.pwm_enable {
        Some(p) => seq![seq!["PWM Mode (pwm1_enable)"@, pwm_enable_text(p)]],
        None => seq![],
    }) + (match r.percentage {
        Some(p) => seq![seq!["Effective Speed"@, spec_decimal(p as nat) + "%"@]],
        None => seq![],
    }) + (match r.pwm_duty {
        Some(d) => seq![seq!["Raw PWM Duty (pwm1)"@, spec_decimal(d as nat) + "/255"@]],
        None => seq![],
    }) + (match r.fans {
        Some(v) => v@.map_values(|f: FanRpmReport| fan_rpm_row(f)),
        None => seq![],
    }) + (match r.thermal_protection_active {
        Some(tp) => seq![
            seq![
                "Thermal Protection Active"@,
                if tp {
                    "YES (Emergency Overdrive)"@
                } else {
                    "No"@
                },
            ],
        ],
        None => seq![],
    })
}

/// The row of one fan in the info table.
pub open spec fn fan_info_row(f: FanInfoReport) -> Seq<Seq<char>> {
    seq![
        "Fan "@ + f.fan_id@,
        "Current RPM: "@ + spec_decimal(or_zero(f.current)) + " | Target: "@ + spec_decimal(
            or_zero(f.target),
        ) + " | Max: "@ + spec_decimal(or_zero(f.max)),
    ]
}

/// The rows of the fan info table: the global mode when present, then one
/// row per fan.
pub open spec fn fan_info_rows(mode: Option<String>, fans: Option<Seq<FanInfoReport>>) -> Seq<Seq<Seq<char>>> {
    (match mode {
        Some(m) => seq![seq!["Global Mode"@, m@]],
        None => seq![],
    }) + (match fans {
        Some(v) => v.map_values(|f: FanInfoReport| fan_info_row(f)),
        None => seq![],
    })
}

fn push_pair(rows: &mut Vec<(String, String)>, a: String, b: String)
    ensures
        pairs_view(final(rows)@) == pairs_view(old(rows)@).push(seq![a@, b@]),
{
    let ghost before = rows@;
    rows.push((a, b));
    assert(pairs_view(rows@) =~= pairs_view(before).push(seq![a@, b@]));
}

fn concat3(a: &str, b: &str, c: &str) -> (r: String)
    ensures
        r@ == a@ + b@ + c@,
{
    let mut r = owned(a);
    append(&mut r, b);
    append(&mut r, c);
    r
}

/// The rows of the fan status table before the fans.
pub open spec fn fan_status_head(r: FanStatusReport) -> Seq<Seq<Seq<char>>> {
    (match r.mode {
        Some(m) => seq![seq!["Fan Mode"@, m@]],
        None => seq![],
    }) + (match r.pwm_enable {
        Some(p) => seq![seq!["PWM Mode (pwm1_enable)"@, pwm_enable_text(p)]],
        None => seq![],
    }) + (match r.percentage {
        Some(p) => seq![seq!["Effective Speed"@, spec_decimal(p as nat) + "%"@]],
        None => seq![],
    }) + (match r.pwm_duty {
        Some(d) => seq![seq!["Raw PWM Duty (pwm1)"@, spec_decimal(d as nat) + "/255"@]],
        None => seq![],
    })
}

fn fan_status_head_rows(r: &FanStatusReport) -> (rows: Vec<(String, String)>)
    ensures
        pairs_view(rows@) == fan_status_head(*r),
{
    let mut rows: Vec<(String, String)> = Vec::new();
    let ghost e0: Seq<Seq<Seq<char>>> = seq![];
    assert(pairs_view(rows@) =~= e0);
    match &r.mode {
        Some(m) => {
            push_pair(&mut rows, owned("Fan Mode"), m.clone());
        },
        None => {},
    }
    let ghost e1 = pairs_view(rows@);
    match r.pwm_enable {
        Some(p) => {
            push_pair(&mut rows, owned("PWM Mode (pwm1_enable)"), owned(pwm_enable_description(p)));
        },
        None => {},
    }
    let ghost e2 = pairs_view(rows@);
    match r.percentage {
        Some(p) => {
            let d = decimal(p);
            push_pair(&mut rows, owned("Effective Speed"), concat(d.as_str(), "%"));
        },
        None => {},
    }
    let ghost e3 = pairs_view(rows@);
    match r.pwm_duty {
        Some(p) => {
            let d = decimal(p);
            push_pair(&mut rows, owned("Raw PWM Duty (pwm1)"), concat(d.as_str(), "/255"));
        },
        None => {},
    }
    assert(pairs_view(rows@) =~= fan_status_head(*r));
    rows
}

fn append_fan_rows(rows: &mut Vec<(String, String)>, fans: &Vec<FanRpmReport>)
    ensures
        pairs_view(final(rows)@) == pairs_view(old(rows)@) + fans@.map_values(
            |f: FanRpmReport| fan_rpm_row(f),
        ),
{
    let ghost head = pairs_view(rows@);
    let mut i: usize = 0;
    assert(fans@.subrange(0, 0).map_values(|f: FanRpmReport| fan_rpm_row(f)) =~= seq![]);
    assert(head + seq![] =~= head);
    while i < fans.len()
        invariant
            i <= fans.len(),
            pairs_view(rows@) == head + fans@.subrange(0, i as int).map_values(
                |f: FanRpmReport| fan_rpm_row(f),
            ),
        decreases fans.len() - i,
    {
        let f = &fans[i];
        let id = decimal(match f.id { Some(v) => v, None => 0 });
        let cur = decimal(match f.current_rpm { Some(v) => v, None => 0 });
        let max = decimal(match f.max_rpm { Some(v) => v, None => 0 });
        let a = concat3("Fan ", id.as_str(), " RPM");
        let b0 = concat3(cur.as_str(), " RPM (Max: ", max.as_str());
        let b = concat(b0.as_str(), " RPM)");
        let ghost prev = pairs_view(rows@);
        push_pair(rows, a, b);
        assert(seq![a@, b@] =~= fan_rpm_row(fans@[i as int]));
        assert(fans@.subrange(0, i + 1).map_values(|f: FanRpmReport| fan_rpm_row(f))
            =~= fans@.subrange(0, i as int).map_values(|f: FanRpmReport| fan_rpm_row(f)).push(
            fan_rpm_row(fans@[i as int]),
        ));
        i = i + 1;
    }
    assert(fans@.subrange(0, fans@.len() as int) =~= fans@);
}

/// The table shown for the daemon's fan status reply.
pub fn fan_status_table(r: &FanStatusReport) -> (t: Table)
    ensures
        table_header(t) == Some(seq!["Fan Subsystem Property"@, "Value"@]),
        table_rows(t) == fan_status_rows(*r),
{
    let mut rows = fan_status_head_rows(r);
    let ghost h = pairs_view(rows@);
    match &r.fans {
        Some(fans) => {
            append_fan_rows(&mut rows, fans);
        },
        None => {},
    }
    let ghost hf = pairs_view(rows@);
    match r.thermal_protection_active {
        Some(tp) => {
            push_pair(
                &mut rows,
                owned("Thermal Protection Active"),
                owned(
                    if tp {
                        "YES (Emergency Overdrive)"
                    } else {
                        "No"
                    },
                ),
            );
        },
        None => {},
    }
    assert(pairs_view(rows@) =~= fan_status_rows(*r));
    two_column_table("Fan Subsystem Property", "Value", &rows)
}

/// The table shown for the daemon's fan info reply.
pub fn fan_info_table(mode: &Option<String>, fans: &Option<Vec<FanInfoReport>>) -> (t: Table)
    ensures
        table_header(t) == Some(seq!["Property"@, "Value"@]),
        table_rows(t) == fan_info_rows(
            *mode,
            match fans {
                Some(v) => Some(v@),
                None => None,
            },
        ),
{
    let mut rows: Vec<(String, String)> = Vec::new();
    match mode {
        Some(m) => {
            push_pair(&mut rows, owned("Global Mode"), m.clone());
        },
        None => {},
    }
    let ghost head = pairs_view(rows@);
    match fans {
        Some(fans) => {
            let mut i: usize = 0;
            while i < fans.len()
                invariant
                    i <= fans.len(),
                    pairs_view(rows@) == head + fans@.subrange(0, i as int).map_values(
                        |f: FanInfoReport| fan_info_row(f),
                    ),
                decreases fans.len() - i,
            {
                let f = &fans[i];
                let cur = decimal(match f.current { Some(v) => v, None => 0 });
                let tgt = decimal(match f.target { Some(v) => v, None => 0 });
                let max = decimal(match f.max { Some(v) => v, None => 0 });
                let a = concat("Fan ", f.fan_id.as_str());
                let b0 = concat3("Current RPM: ", cur.as_str(), " | Target: ");
                let b1 = concat3(b0.as_str(), tgt.as_str(), " | Max: ");
                let b = concat(b1.as_str(), max.as_str());
                push_pair(&mut rows, a, b);
                assert(fans@.subrange(0, i + 1).map_values(|f: FanInfoReport| fan_info_row(f))
                    =~= fans@.subrange(0, i as int).map_values(|f: FanInfoReport| fan_info_row(f)).push(
                    fan_info_row(fans@[i as int]),
                ));
                i = i + 1;
            }
            assert(fans@.subrange(0, fans@.len() as int) =~= fans@);
        },
        None => {},
    }
    assert(pairs_view(rows@) =~= fan_info_rows(
        *mode,
        match fans {
            Some(v) => Some(v@),
            None => None,
        },
    ));
    two_column_table("Property", "Value", &rows)
}

/// What the CLI says for the daemon's reply to a power mode change: the
/// success line when the reply is `OK`, otherwise the failure line.
pub fn mode_reply_message(target: &str, reply: &str) -> (r: Result<String, String>)
    ensures
        reply@ == "OK"@ ==> (r matches Ok(m) && m@ == "Power mode successfully set to '"@ + target@
            + "'"@),
        reply@ != "OK"@ ==> (r matches Err(m) && m@ == "Failed to set power mode to '"@ + target@
            + "': "@ + reply@),
{
    if str_eq(reply, "OK") {
        Ok(concat3("Power mode successfully set to '", target, "'"))
    } else {
        let m = concat3("Failed to set power mode to '", target, "': ");
        Err(concat(m.as_str(), reply))
    }
}

/// What the CLI says for the daemon's reply to restoring automatic fan control.
pub fn fan_auto_reply_message(reply: &str) -> (r: Result<String, String>)
    ensures
        reply@ == "OK"@ ==> (r matches Ok(m) && m@
            == "Fan mode set to Auto (BIOS hardware control restored)."@),
        reply@ != "OK"@ ==> (r matches Err(m) && m@ == "Failed to set fan mode to Auto: "@ + reply@),
{
    if str_eq(reply, "OK") {
        Ok(owned("Fan mode set to Auto (BIOS hardware control restored)."))
    } else {
        Err(concat("Failed to set fan mode to Auto: ", reply))
    }
}

/// What the CLI says for the daemon's reply to a manual fan speed.
pub fn fan_manual_reply_message(percentage: u32, reply: &str) -> (r: Result<String, String>)
    ensures
        reply@ == "OK"@ ==> (r matches Ok(m) && m@ == "Fan speed successfully set to "@
            + spec_decimal(percentage as nat) + "% manual."@),
        reply@ != "OK"@ ==> (r matches Err(m) && m@ == "Failed to set fan speed: "@ + reply@),
{
    if str_eq(reply, "OK") {
        let d = decimal(percentage as u64);
        Ok(concat3("Fan speed successfully set to ", d.as_str(), "% manual."))
    } else {
        Err(concat("Failed to set fan speed: ", reply))
    }
}

} // verus!

verus! {

/// A JSON value as the CLI's tables read it: a string, a number that fits a
/// `u64`, a boolean, an array (its length), an object (its keys, in order),
/// or anything else.
#[derive(Debug)]
pub enum JsonItem {
    Str(String),
    U64(u64),
    Bool(bool),
    Array(usize),
    Object(Vec<String>),
    Other,
}

/// The view of a JSON value.
pub enum JsonItemView {
    Str(Seq<char>),
    U64(u64),
    Bool(bool),
    Array(nat),
    Object(Seq<Seq<char>>),
    Other,
}

/// The view of a JSON value.
pub open spec fn item_view(v: JsonItem) -> JsonItemView {
    match v {
        JsonItem::Str(s) => JsonItemView::Str(s@),
        JsonItem::U64(n) => JsonItemView::U64(n),
        JsonItem::Bool(b) => JsonItemView::Bool(b),
        JsonItem::Array(n) => JsonItemView::Array(n as nat),
        JsonItem::Object(k) => JsonItemView::Object(views(k@)),
        JsonItem::Other => JsonItemView::Other,
    }
}

/// What `serde_json::from_str::<Value>` and `Value::pointer` give for a text
/// and a JSON pointer: none when the text is not JSON; otherwise the value
/// that the pointer designates, if any.
pub uninterp spec fn json_pointer_item(text: Seq<char>, pointer: Seq<char>) -> Option<Option<JsonItemView>>;

/// Parses `text` with `serde_json::from_str::<Value>` and looks up `pointer`
/// with `Value::pointer`; the value found is handed out by its kind. What it
/// gives is named by `json_pointer_item`, a function of the text and the
/// pointer alone.
#[verifier::external_body]
fn json_item(text: &str, pointer: &str) -> (r: Option<Option<JsonItem>>)
    ensures
        json_pointer_item(text@, pointer@) == match r {
            None => None,
            Some(None) => Some(None),
            Some(Some(v)) => Some(Some(item_view(v))),
        },
{
    let v: serde_json::Value = serde_json::from_str(text).ok()?;
    Some(v.pointer(pointer).map(|x| match x {
        serde_json::Value::String(s) => JsonItem::Str(s.clone()),
        serde_json::Value::Number(n) => n.as_u64().map_or(JsonItem::Other, JsonItem::U64),
        serde_json::Value::Bool(b) => JsonItem::Bool(*b),
        serde_json::Value::Array(a) => JsonItem::Array(a.len()),
        serde_json::Value::Object(o) => JsonItem::Object(o.keys().cloned().collect()),
        serde_json::Value::Null => JsonItem::Other,
    }))
}

/// What `serde_json::from_str::<Value>` gives for a text, read as an object
/// whose values are shown as JSON text (`Value::to_string`): none when the
/// text is not JSON; `Some(None)` when it is not an object; otherwise each
/// key with the JSON text of its value, in order.
pub uninterp spec fn json_object_texts(text: Seq<char>) -> Option<Option<Seq<(Seq<char>, Seq<char>)>>>;

/// Parses `text` with `serde_json::from_str::<Value>`; an object is handed
/// out entry by entry, each value as its JSON text. What it gives is named
/// by `json_object_texts`, a function of the text alone.
#[verifier::external_body]
fn object_texts(text: &str) -> (r: Option<Option<Vec<(String, String)>>>)
    ensures
        json_object_texts(text@) == match r {
            None => None,
            Some(None) => Some(None),
            Some(Some(v)) => Some(Some(v@.map_values(|p: (String, String)| (p.0@, p.1@)))),
        },
{
    match serde_json::from_str::<serde_json::Value>(text).ok()? {
        serde_json::Value::Object(o) => Some(Some(o.iter().map(|(k, v)| (k.clone(), v.to_string())).collect())),
        _ => Some(None),
    }
}

/// The value that a pointer designates in a text, if the text is JSON and
/// holds one.
pub open spec fn item_at(text: Seq<char>, pointer: Seq<char>) -> Option<JsonItemView> {
    match json_pointer_item(text, pointer) {
        Some(Some(v)) => Some(v),
        _ => None,
    }
}

/// The string at a pointer, if that is what is there.
pub open spec fn str_at(text: Seq<char>, pointer: Seq<char>) -> Option<Seq<char>> {
    match item_at(text, pointer) {
        Some(JsonItemView::Str(s)) => Some(s),
        _ => None,
    }
}

/// The number at a pointer, if it is one that fits a `u64`.
pub open spec fn u64_at(text: Seq<char>, pointer: Seq<char>) -> Option<u64> {
    match item_at(text, pointer) {
        Some(JsonItemView::U64(n)) => Some(n),
        _ => None,
    }
}

/// The boolean at a pointer, if that is what is there.
pub open spec fn bool_at(text: Seq<char>, pointer: Seq<char>) -> Option<bool> {
    match item_at(text, pointer) {
        Some(JsonItemView::Bool(b)) => Some(b),
        _ => None,
    }
}

/// A JSON pointer token for an object key: `~` written `~0`, `/` written `~1`.
pub open spec fn pointer_token(key: Seq<char>) -> Seq<char>
    decreases key.len(),
{
    if key.len() == 0 {
        seq![]
    } else {
        let rest = pointer_token(key.drop_last());
        let c = key.last();
        if c == '~' {
            rest + "~0"@
        } else if c == '/' {
            rest + "~1"@
        } else {
            rest.push(c)
        }
    }
}

/// The pointer token of an object key.
pub fn escape_pointer_token(key: &str) -> (r: String)
    ensures
        r@ == pointer_token(key@),
{
    let v = crate::text::chars_of(key);
    let mut r = String::new();
    let mut i: usize = 0;
    assert(key@.subrange(0, 0) =~= seq![]);
    while i < v.len()
        invariant
            v@ == key@,
            i <= v.len(),
            r@ == pointer_token(key@.subrange(0, i as int)),
        decreases v.len() - i,
    {
        let c = v[i];
        let ghost before = r@;
        assert(key@.subrange(0, i + 1).drop_last() =~= key@.subrange(0, i as int));
        assert(key@.subrange(0, i + 1).last() == c);
        if c == '~' {
            r.push('~');
            r.push('0');
            proof {
                reveal_strlit("~0");
            }
            assert("~0"@ =~= seq!['~', '0']);
            assert(r@ =~= before + "~0"@);
        } else if c == '/' {
            r.push('~');
            r.push('1');
            proof {
                reveal_strlit("~1");
            }
            assert("~1"@ =~= seq!['~', '1']);
            assert(r@ =~= before + "~1"@);
        } else {
            r.push(c);
        }
        assert(r@ =~= pointer_token(key@.subrange(0, i + 1)));
        i = i + 1;
    }
    assert(key@.subrange(0, key@.len() as int) =~= key@);
    r
}

fn str_item(text: &str, pointer: &str) -> (r: Option<String>)
    ensures
        crate::cpu_energy::opt_view(r) == str_at(text@, pointer@),
{
    match json_item(text, pointer) {
        Some(Some(JsonItem::Str(s))) => Some(s),
        _ => None,
    }
}

fn u64_item(text: &str, pointer: &str) -> (r: Option<u64>)
    ensures
        r == u64_at(text@, pointer@),
{
    match json_item(text, pointer) {
        Some(Some(JsonItem::U64(n))) => Some(n),
        _ => None,
    }
}

fn bool_item(text: &str, pointer: &str) -> (r: Option<bool>)
    ensures
        r == bool_at(text@, pointer@),
{
    match json_item(text, pointer) {
        Some(Some(JsonItem::Bool(b))) => Some(b),
        _ => None,
    }
}

/// What the fan status table reads of one fan: its id, current and maximum speed.
pub open spec fn rpm_view(f: FanRpmReport) -> (Option<u64>, Option<u64>, Option<u64>) {
    (f.id, f.current_rpm, f.max_rpm)
}

/// What the fan status table reads of a reply.
pub struct FanStatusView {
    pub mode: Option<Seq<char>>,
    pub pwm_enable: Option<u64>,
    pub percentage: Option<u64>,
    pub pwm_duty: Option<u64>,
    pub fans: Option<Seq<(Option<u64>, Option<u64>, Option<u64>)>>,
    pub thermal_protection_active: Option<bool>,
}

/// The view of a fan status report.
pub open spec fn status_view(r: FanStatusReport) -> FanStatusView {
    FanStatusView {
        mode: crate::cpu_energy::opt_view(r.mode),
        pwm_enable: r.pwm_enable,
        percentage: r.percentage,
        pwm_duty: r.pwm_duty,
        fans: match r.fans {
            Some(v) => Some(v@.map_values(|f: FanRpmReport| rpm_view(f))),
            None => None,
        },
        thermal_protection_active: r.thermal_protection_active,
    }
}

/// The pointer to field `field` of element `i` of the array at `base`.
pub open spec fn element_pointer(base: Seq<char>, i: nat, field: Seq<char>) -> Seq<char> {
    base + "/"@ + spec_decimal(i) + "/"@ + field
}

/// What the fan status table reads of the daemon's reply: none when the
/// reply is not JSON; otherwise `mode` when it is a string, `pwm_enable`,
/// `percentage` and `pwm_duty` when they are numbers that fit a `u64`, for
/// each element of the `fans` array its `id`, `current_rpm` and `max_rpm`
/// (each when it is such a number), and `thermal_protection_active` when it
/// is a boolean.
pub open spec fn json_fan_status(text: Seq<char>) -> Option<FanStatusView> {
    if json_pointer_item(text, ""@) is None {
        None
    } else {
        Some(FanStatusView {
            mode: str_at(text, "/mode"@),
            pwm_enable: u64_at(text, "/pwm_enable"@),
            percentage: u64_at(text, "/percentage"@),
            pwm_duty: u64_at(text, "/pwm_duty"@),
            fans: match item_at(text, "/fans"@) {
                Some(JsonItemView::Array(n)) => Some(Seq::new(n, |i: int| (
                    u64_at(text, element_pointer("/fans"@, i as nat, "id"@)),
                    u64_at(text, element_pointer("/fans"@, i as nat, "current_rpm"@)),
                    u64_at(text, element_pointer("/fans"@, i as nat, "max_rpm"@)),
                ))),
                _ => None,
            },
            thermal_protection_active: bool_at(text, "/thermal_protection_active"@),
        })
    }
}

/// The row of one fan in the status table, from what is read of it.
pub open spec fn rpm_row_of(f: (Option<u64>, Option<u64>, Option<u64>)) -> Seq<Seq<char>> {
    seq![
        "Fan "@ + spec_decimal(or_zero(f.0)) + " RPM"@,
        spec_decimal(or_zero(f.1)) + " RPM (Max: "@ + spec_decimal(or_zero(f.2)) + " RPM)"@,
    ]
}

/// The rows of the fan status table for what is read of a reply (see
/// `fan_status_rows`).
pub open spec fn status_rows_of(v: FanStatusView) -> Seq<Seq<Seq<char>>> {
    (match v.mode {
        Some(m) => seq![seq!["Fan Mode"@, m]],
        None => seq![],
    }) + (match v.pwm_enable {
        Some(p) => seq![seq!["PWM Mode (pwm1_enable)"@, pwm_enable_text(p)]],
        None => seq![],
    }) + (match v.percentage {
        Some(p) => seq![seq!["Effective Speed"@, spec_decimal(p as nat) + "%"@]],
        None => seq![],
    }) + (match v.pwm_duty {
        Some(d) => seq![seq!["Raw PWM Duty (pwm1)"@, spec_decimal(d as nat) + "/255"@]],
        None => seq![],
    }) + (match v.fans {
        Some(f) => f.map_values(|x: (Option<u64>, Option<u64>, Option<u64>)| rpm_row_of(x)),
        None => seq![],
    }) + (match v.thermal_protection_active {
        Some(tp) => seq![
            seq![
                "Thermal Protection Active"@,
                if tp {
                    "YES (Emergency Overdrive)"@
                } else {
                    "No"@
                },
            ],
        ],
        None => seq![],
    })
}

proof fn lemma_status_rows_of_view(r: FanStatusReport)
    ensures
        fan_status_rows(r) == status_rows_of(status_view(r)),
{
    match r.fans {
        Some(v) => {
            assert(v@.map_values(|f: FanRpmReport| fan_rpm_row(f)) =~= v@.map_values(
                |f: FanRpmReport| rpm_view(f),
            ).map_values(|x: (Option<u64>, Option<u64>, Option<u64>)| rpm_row_of(x)));
        },
        None => {},
    }
    assert(fan_status_rows(r) =~= status_rows_of(status_view(r)));
}

/// The pointer `base/i/field`.
fn element_pointer_of(base: &str, i: usize, field: &str) -> (r: String)
    ensures
        r@ == element_pointer(base@, i as nat, field@),
{
    proof {
        reveal_strlit("/");
    }
    let d = decimal(i as u64);
    let mut r = concat(base, "/");
    append(&mut r, d.as_str());
    append(&mut r, "/");
    append(&mut r, field);
    r
}

/// What the CLI shows for the daemon's fan status reply: the status table
/// when the reply is JSON, otherwise the reply itself as the error.
pub fn fan_status_output(reply: &str) -> (r: Result<Table, String>)
    ensures
        match json_fan_status(reply@) {
            Some(v) => r matches Ok(t) && table_header(t) == Some(
                seq!["Fan Subsystem Property"@, "Value"@],
            ) && table_rows(t) == status_rows_of(v),
            None => r matches Err(s) && s@ == reply@,
        },
{
    proof {
        reveal_strlit("");
        reveal_strlit("/fans");
    }
    if json_item(reply, "").is_none() {
        return Err(owned(reply));
    }
    let fans = match json_item(reply, "/fans") {
        Some(Some(JsonItem::Array(n))) => {
            let mut v: Vec<FanRpmReport> = Vec::new();
            let mut i: usize = 0;
            while i < n
                invariant
                    i <= n,
                    item_at(reply@, "/fans"@) == Some(JsonItemView::Array(n as nat)),
                    v@.map_values(|f: FanRpmReport| rpm_view(f)) =~= Seq::new(
                        i as nat,
                        |k: int| (
                            u64_at(reply@, element_pointer("/fans"@, k as nat, "id"@)),
                            u64_at(reply@, element_pointer("/fans"@, k as nat, "current_rpm"@)),
                            u64_at(reply@, element_pointer("/fans"@, k as nat, "max_rpm"@)),
                        ),
                    ),
                decreases n - i,
            {
                let p_id = element_pointer_of("/fans", i, "id");
                let p_cur = element_pointer_of("/fans", i, "current_rpm");
                let p_max = element_pointer_of("/fans", i, "max_rpm");
                let f = FanRpmReport {
                    id: u64_item(reply, p_id.as_str()),
                    current_rpm: u64_item(reply, p_cur.as_str()),
                    max_rpm: u64_item(reply, p_max.as_str()),
                };
                let ghost before = v@;
                v.push(f);
                proof {
                    let g = |k: int| (
                        u64_at(reply@, element_pointer("/fans"@, k as nat, "id"@)),
                        u64_at(reply@, element_pointer("/fans"@, k as nat, "current_rpm"@)),
                        u64_at(reply@, element_pointer("/fans"@, k as nat, "max_rpm"@)),
                    );
                    assert(v@ =~= before.push(f));
                    assert(v@.map_values(|f: FanRpmReport| rpm_view(f)) =~= before.map_values(
                        |f: FanRpmReport| rpm_view(f),
                    ).push(rpm_view(f)));
                    assert(Seq::new((i + 1) as nat, g) =~= Seq::new(i as nat, g).push(g(i as int)));
                }
                i = i + 1;
            }
            Some(v)
        },
        _ => None,
    };
    let rep = FanStatusReport {
        mode: str_item(reply, "/mode"),
        pwm_enable: u64_item(reply, "/pwm_enable"),
        percentage: u64_item(reply, "/percentage"),
        pwm_duty: u64_item(reply, "/pwm_duty"),
        fans,
        thermal_protection_active: bool_item(reply, "/thermal_protection_active"),
    };
    proof {
        lemma_status_rows_of_view(rep);
        assert(status_view(rep) == json_fan_status(reply@)->0);
    }
    Ok(fan_status_table(&rep))
}

/// What the fan info table reads of one fan: its key, current, target and
/// maximum speed.
pub open spec fn info_view(f: FanInfoReport) -> (Seq<char>, Option<u64>, Option<u64>, Option<u64>) {
    (f.fan_id@, f.current, f.target, f.max)
}

/// The pointer to field `field` of the fan under `key` in the `fans` object.
pub open spec fn fan_field_pointer(key: Seq<char>, field: Seq<char>) -> Seq<char> {
    "/fans/"@ + pointer_token(key) + "/"@ + field
}

/// What the fan info table reads of the daemon's reply: none when the
/// reply is not JSON; otherwise `mode` when it is a string, and for each
/// key of the `fans` object, in order, the key with its `current`, `target`
/// and `max` (each when it is a number that fits a `u64`).
pub open spec fn json_fan_info(text: Seq<char>) -> Option<
    (Option<Seq<char>>, Option<Seq<(Seq<char>, Option<u64>, Option<u64>, Option<u64>)>>),
> {
    if json_pointer_item(text, ""@) is None {
        None
    } else {
        Some((
            str_at(text, "/mode"@),
            match item_at(text, "/fans"@) {
                Some(JsonItemView::Object(keys)) => Some(Seq::new(keys.len(), |i: int| (
                    keys[i],
                    u64_at(text, fan_field_pointer(keys[i], "current"@)),
                    u64_at(text, fan_field_pointer(keys[i], "target"@)),
                    u64_at(text, fan_field_pointer(keys[i], "max"@)),
                ))),
                _ => None,
            },
        ))
    }
}

/// The row of one fan in the info table, from what is read of it.
pub open spec fn info_row_of(f: (Seq<char>, Option<u64>, Option<u64>, Option<u64>)) -> Seq<Seq<char>> {
    seq![
        "Fan "@ + f.0,
        "Current RPM: "@ + spec_decimal(or_zero(f.1)) + " | Target: "@ + spec_decimal(or_zero(f.2))
            + " | Max: "@ + spec_decimal(or_zero(f.3)),
    ]
}

/// The rows of the fan info table for what is read of a reply (see `fan_info_rows`).
pub open spec fn info_rows_of(
    mode: Option<Seq<char>>,
    fans: Option<Seq<(Seq<char>, Option<u64>, Option<u64>, Option<u64>)>>,
) -> Seq<Seq<Seq<char>>> {
    (match mode {
        Some(m) => seq![seq!["Global Mode"@, m]],
        None => seq![],
    }) + (match fans {
        Some(v) => v.map_values(|f: (Seq<char>, Option<u64>, Option<u64>, Option<u64>)| info_row_of(f)),
        None => seq![],
    })
}

proof fn lemma_info_rows_of_view(mode: Option<String>, fans: Option<Seq<FanInfoReport>>)
    ensures
        fan_info_rows(mode, fans) == info_rows_of(
            crate::cpu_energy::opt_view(mode),
            match fans {
                Some(v) => Some(v.map_values(|f: FanInfoReport| info_view(f))),
                None => None,
            },
        ),
{
    match fans {
        Some(v) => {
            assert(v.map_values(|f: FanInfoReport| fan_info_row(f)) =~= v.map_values(
                |f: FanInfoReport| info_view(f),
            ).map_values(|f: (Seq<char>, Option<u64>, Option<u64>, Option<u64>)| info_row_of(f)));
        },
        None => {},
    }
    assert(fan_info_rows(mode, fans) =~= info_rows_of(
        crate::cpu_energy::opt_view(mode),
        match fans {
            Some(v) => Some(v.map_values(|f: FanInfoReport| info_view(f))),
            None => None,
        },
    ));
}

fn fan_field_pointer_of(key: &str, field: &str) -> (r: String)
    ensures
        r@ == fan_field_pointer(key@, field@),
{
    let t = escape_pointer_token(key);
    let mut r = concat("/fans/", t.as_str());
    append(&mut r, "/");
    append(&mut r, field);
    r
}

/// What the CLI shows for the daemon's fan info reply: the info table when
/// the reply is JSON, otherwise the reply itself as the error.
pub fn fan_info_output(reply: &str) -> (r: Result<Table, String>)
    ensures
        match json_fan_info(reply@) {
            Some((m, f)) => r matches Ok(t) && table_header(t) == Some(seq!["Property"@, "Value"@])
                && table_rows(t) == info_rows_of(m, f),
            None => r matches Err(s) && s@ == reply@,
        },
{
    if json_item(reply, "").is_none() {
        return Err(owned(reply));
    }
    let fans = match json_item(reply, "/fans") {
        Some(Some(JsonItem::Object(keys))) => {
            let mut v: Vec<FanInfoReport> = Vec::new();
            let mut i: usize = 0;
            while i < keys.len()
                invariant
                    i <= keys.len(),
                    v@.map_values(|f: FanInfoReport| info_view(f)) =~= Seq::new(
                        i as nat,
                        |k: int| (
                            keys@[k]@,
                            u64_at(reply@, fan_field_pointer(keys@[k]@, "current"@)),
                            u64_at(reply@, fan_field_pointer(keys@[k]@, "target"@)),
                            u64_at(reply@, fan_field_pointer(keys@[k]@, "max"@)),
                        ),
                    ),
                decreases keys.len() - i,
            {
                let key = keys[i].as_str();
                let p_cur = fan_field_pointer_of(key, "current");
                let p_tgt = fan_field_pointer_of(key, "target");
                let p_max = fan_field_pointer_of(key, "max");
                let f = FanInfoReport {
                    fan_id: keys[i].clone(),
                    current: u64_item(reply, p_cur.as_str()),
                    target: u64_item(reply, p_tgt.as_str()),
                    max: u64_item(reply, p_max.as_str()),
                };
                let ghost before = v@;
                v.push(f);
                proof {
                    let g = |k: int| (
                        keys@[k]@,
                        u64_at(reply@, fan_field_pointer(keys@[k]@, "current"@)),
                        u64_at(reply@, fan_field_pointer(keys@[k]@, "target"@)),
                        u64_at(reply@, fan_field_pointer(keys@[k]@, "max"@)),
                    );
                    assert(v@.map_values(|f: FanInfoReport| info_view(f)) =~= before.map_values(
                        |f: FanInfoReport| info_view(f),
                    ).push(info_view(f)));
                    assert(Seq::new((i + 1) as nat, g) =~= Seq::new(i as nat, g).push(g(i as int)));
                }
                i = i + 1;
            }
            proof {
                assert(Seq::new(keys@.len(), |k: int| (
                    views(keys@)[k],
                    u64_at(reply@, fan_field_pointer(views(keys@)[k], "current"@)),
                    u64_at(reply@, fan_field_pointer(views(keys@)[k], "target"@)),
                    u64_at(reply@, fan_field_pointer(views(keys@)[k], "max"@)),
                )) =~= v@.map_values(|f: FanInfoReport| info_view(f)));
            }
            Some(v)
        },
        _ => None,
    };
    let mode = str_item(reply, "/mode");
    proof {
        lemma_info_rows_of_view(mode, match &fans { Some(v) => Some(v@), None => None });
    }
    Ok(fan_info_table(&mode, &fans))
}

/// The rows that a JSON object's entries give: each key with its value's JSON text.
pub open spec fn text_rows(e: Seq<(Seq<char>, Seq<char>)>) -> Seq<Seq<Seq<char>>> {
    e.map_values(|p: (Seq<char>, Seq<char>)| seq![p.0, p.1])
}

/// What the CLI shows for the daemon's power profile reply: when the reply
/// is JSON, a `Key`/`Value` table with a row per entry of the object (no
/// rows when it is not an object); otherwise the reply itself as the error.
pub fn power_info_output(reply: &str) -> (r: Result<Table, String>)
    ensures
        match json_object_texts(reply@) {
            None => r matches Err(s) && s@ == reply@,
            Some(None) => r matches Ok(t) && table_header(t) == Some(seq!["Key"@, "Value"@])
                && table_rows(t) == Seq::<Seq<Seq<char>>>::empty(),
            Some(Some(e)) => r matches Ok(t) && table_header(t) == Some(seq!["Key"@, "Value"@])
                && table_rows(t) == text_rows(e),
        },
{
    match object_texts(reply) {
        None => Err(owned(reply)),
        Some(None) => {
            let rows: Vec<(String, String)> = Vec::new();
            let t = two_column_table("Key", "Value", &rows);
            assert(pairs_view(rows@) =~= Seq::<Seq<Seq<char>>>::empty());
            Ok(t)
        },
        Some(Some(rows)) => {
            let t = two_column_table("Key", "Value", &rows);
            assert(pairs_view(rows@) =~= text_rows(rows@.map_values(|p: (String, String)| (p.0@, p.1@))));
            Ok(t)
        },
    }
}

} // verus!
