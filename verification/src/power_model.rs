//! Power modes, EPP preferences and the static hardware definition of each mode.

use vstd::prelude::*;
use crate::text::{
    concat, lemma_plain_token_normal, lemma_replace_absent, lowercase_of, owned, replace_char, spec_replace_char, spec_trim, str_eq,
    to_lowercase, trim,
};

verus! {

/// Strongly typed power modes.
///
/// Each mode corresponds to one hardware configuration of the ACPI
/// platform profile, the CPU energy performance preference and CPU boost.
#[derive(Debug, Clone, Copy, PartialEq, Eq, Hash, Structural)]
pub enum PowerMode {
    /// Balanced profile, balance_power EPP, boost enabled.
    Work,
    /// Power-saver profile, power EPP, boost disabled.
    GameBattery,
    /// Performance profile, performance EPP, boost enabled.
    Game,
}

/// The canonical identifier of a power mode.
pub open spec fn mode_name(m: PowerMode) -> Seq<char> {
    match m {
        PowerMode::Work => "work"@,
        PowerMode::GameBattery => "game-battery"@,
        PowerMode::Game => "game"@,
    }
}

/// Input text normalized the way power mode names are compared: trimmed,
/// lowercased, with `_` read as `-`.
pub open spec fn mode_normal_form(s: Seq<char>) -> Seq<char> {
    spec_replace_char(lowercase_of(spec_trim(s)), '_', '-')
}

/// The power mode that a normalized name denotes, if any.
pub open spec fn mode_of_normal_form(n: Seq<char>) -> Option<PowerMode> {
    if n == "work"@ {
        Some(PowerMode::Work)
    } else if n == "game-battery"@ || n == "gamebattery"@ {
        Some(PowerMode::GameBattery)
    } else if n == "game"@ || n == "game-plugged"@ || n == "gameplugged"@ {
        Some(PowerMode::Game)
    } else {
        None
    }
}

/// Error returned when parsing an invalid power mode string; it holds the input.
#[derive(Debug, Clone, PartialEq, Eq)]
pub struct ParsePowerModeError(pub String);

impl ParsePowerModeError {
    /// The human-readable message of this error.
    pub fn message(&self) -> (r: String)
        ensures
            r@ == "Invalid power mode '"@ + self.0@ + "'. Valid modes: work, game-battery, game"@,
    {
        let a = concat("Invalid power mode '", self.0.as_str());
        concat(a.as_str(), "'. Valid modes: work, game-battery, game")
    }
}

impl PowerMode {
    /// Return the canonical string identifier for this power mode.
    pub fn as_str(&self) -> (r: &'static str)
        ensures
            r@ == mode_name(*self),
    {
        match self {
            PowerMode::Work => "work",
            PowerMode::GameBattery => "game-battery",
            PowerMode::Game => "game",
        }
    }

    /// All available power modes, in declaration order.
    pub fn all() -> (r: Vec<PowerMode>)
        ensures
            r@ == seq![PowerMode::Work, PowerMode::GameBattery, PowerMode::Game],
    {
        let mut v: Vec<PowerMode> = Vec::new();
        v.push(PowerMode::Work);
        v.push(PowerMode::GameBattery);
        v.push(PowerMode::Game);
        v
    }

    /// The static hardware profile definition for this power mode.
    pub fn definition(&self) -> (r: PowerModeDefinition)
        ensures
            is_definition_of(r, *self),
    {
        get_definition(*self)
    }

    /// Parse a power mode name. The input is trimmed, lowercased and `_` is
    /// read as `-`; `work`, `game-battery`/`gamebattery` and
    /// `game`/`game-plugged`/`gameplugged` are accepted.
    pub fn parse(s: &str) -> (r: Result<PowerMode, ParsePowerModeError>)
        ensures
            match mode_of_normal_form(mode_normal_form(s@)) {
                Some(m) => r == Ok::<PowerMode, ParsePowerModeError>(m),
                None => r is Err && r->Err_0.0@ == s@,
            },
    {
        let t = trim(s);
        let l = to_lowercase(t.as_str());
        let n = replace_char(l.as_str(), '_', '-');
        let n = n.as_str();
        if str_eq(n, "work") {
            Ok(PowerMode::Work)
        } else if str_eq(n, "game-battery") || str_eq(n, "gamebattery") {
            Ok(PowerMode::GameBattery)
        } else if str_eq(n, "game") || str_eq(n, "game-plugged") || str_eq(n, "gameplugged") {
            Ok(PowerMode::Game)
        } else {
            Err(ParsePowerModeError(owned(s)))
        }
    }
}

/// Parsing the canonical name of any mode gives that mode back.
pub proof fn lemma_mode_name_parses(m: PowerMode)
    ensures
        mode_of_normal_form(mode_normal_form(mode_name(m))) == Some(m),
{
    reveal_strlit("work");
    reveal_strlit("game-battery");
    reveal_strlit("gamebattery");
    reveal_strlit("game");
    reveal_strlit("game-plugged");
    reveal_strlit("gameplugged");
    let s = mode_name(m);
    lemma_plain_token_normal(s);
    lemma_replace_absent(s, '_', '-');
}

impl std::str::FromStr for PowerMode {
    type Err = ParsePowerModeError;

    fn from_str(s: &str) -> (r: Result<PowerMode, ParsePowerModeError>)
        ensures
            match mode_of_normal_form(mode_normal_form(s@)) {
                Some(m) => r == Ok::<PowerMode, ParsePowerModeError>(m),
                None => r is Err && r->Err_0.0@ == s@,
            },
    {
        PowerMode::parse(s)
    }
}

/// Energy Performance Preference values supported by the cpufreq drivers.
#[derive(Debug, Clone, Copy, PartialEq, Eq, Hash, Structural)]
pub enum EppPreference {
    Performance,
    BalancePerformance,
    BalancePower,
    Power,
}

/// The exact kernel sysfs spelling of an EPP value.
pub open spec fn epp_name(e: EppPreference) -> Seq<char> {
    match e {
        EppPreference::Performance => "performance"@,
        EppPreference::BalancePerformance => "balance_performance"@,
        EppPreference::BalancePower => "balance_power"@,
        EppPreference::Power => "power"@,
    }
}

/// Input text normalized the way EPP names are compared: trimmed,
/// lowercased, with `-` read as `_`.
pub open spec fn epp_normal_form(s: Seq<char>) -> Seq<char> {
    spec_replace_char(lowercase_of(spec_trim(s)), '-', '_')
}

/// The EPP value that a normalized name denotes, if any.
pub open spec fn epp_of_normal_form(n: Seq<char>) -> Option<EppPreference> {
    if n == "performance"@ {
        Some(EppPreference::Performance)
    } else if n == "balance_performance"@ {
        Some(EppPreference::BalancePerformance)
    } else if n == "balance_power"@ {
        Some(EppPreference::BalancePower)
    } else if n == "power"@ {
        Some(EppPreference::Power)
    } else {
        None
    }
}

/// Error returned when parsing an invalid EPP string; it holds the input.
#[derive(Debug, Clone, PartialEq, Eq)]
pub struct ParseEppError(pub String);

impl ParseEppError {
    /// The human-readable message of this error.
    pub fn message(&self) -> (r: String)
        ensures
            r@ == "Invalid EPP preference '"@ + self.0@
                + "'. Valid options: performance, balance_performance, balance_power, power"@,
    {
        let a = concat("Invalid EPP preference '", self.0.as_str());
        concat(
            a.as_str(),
            "'. Valid options: performance, balance_performance, balance_power, power",
        )
    }
}

impl EppPreference {
    /// The exact kernel sysfs representation of this EPP value.
    pub fn as_str(&self) -> (r: &'static str)
        ensures
            r@ == epp_name(*self),
    {
        match self {
            EppPreference::Performance => "performance",
            EppPreference::BalancePerformance => "balance_performance",
            EppPreference::BalancePower => "balance_power",
            EppPreference::Power => "power",
        }
    }

    /// All standard EPP preferences, from most to least performance-oriented.
    pub fn all() -> (r: Vec<EppPreference>)
        ensures
            r@ == seq![
                EppPreference::Performance,
                EppPreference::BalancePerformance,
                EppPreference::BalancePower,
                EppPreference::Power,
            ],
    {
        let mut v: Vec<EppPreference> = Vec::new();
        v.push(EppPreference::Performance);
        v.push(EppPreference::BalancePerformance);
        v.push(EppPreference::BalancePower);
        v.push(EppPreference::Power);
        v
    }

    /// Parse an EPP name. The input is trimmed, lowercased and `-` is read as `_`.
    pub fn parse(s: &str) -> (r: Result<EppPreference, ParseEppError>)
        ensures
            match epp_of_normal_form(epp_normal_form(s@)) {
                Some(e) => r == Ok::<EppPreference, ParseEppError>(e),
                None => r is Err && r->Err_0.0@ == s@,
            },
    {
        let t = trim(s);
        let l = to_lowercase(t.as_str());
        let n = replace_char(l.as_str(), '-', '_');
        let n = n.as_str();
        if str_eq(n, "performance") {
            Ok(EppPreference::Performance)
        } else if str_eq(n, "balance_performance") {
            Ok(EppPreference::BalancePerformance)
        } else if str_eq(n, "balance_power") {
            Ok(EppPreference::BalancePower)
        } else if str_eq(n, "power") {
            Ok(EppPreference::Power)
        } else {
            Err(ParseEppError(owned(s)))
        }
    }
}

/// Parsing the kernel spelling of any EPP value gives that value back.
pub proof fn lemma_epp_name_parses(e: EppPreference)
    ensures
        epp_of_normal_form(epp_normal_form(epp_name(e))) == Some(e),
{
    reveal_strlit("performance");
    reveal_strlit("balance_performance");
    reveal_strlit("balance_power");
    reveal_strlit("power");
    let s = epp_name(e);
    lemma_plain_token_normal(s);
    lemma_replace_absent(s, '-', '_');
}

impl std::str::FromStr for EppPreference {
    type Err = ParseEppError;

    fn from_str(s: &str) -> (r: Result<EppPreference, ParseEppError>)
        ensures
            match epp_of_normal_form(epp_normal_form(s@)) {
                Some(e) => r == Ok::<EppPreference, ParseEppError>(e),
                None => r is Err && r->Err_0.0@ == s@,
            },
    {
        EppPreference::parse(s)
    }
}

/// Static definition of the hardware targets of one power mode.
#[derive(Debug, Clone, Copy, PartialEq, Eq)]
pub struct PowerModeDefinition {
    pub mode: PowerMode,
    pub platform_profile: &'static str,
    pub epp: EppPreference,
    pub boost: bool,
    pub description: &'static str,
}

/// The semantic ACPI platform profile of a power mode.
pub open spec fn profile_of(m: PowerMode) -> Seq<char> {
    match m {
        PowerMode::Work => "balanced"@,
        PowerMode::GameBattery => "power-saver"@,
        PowerMode::Game => "performance"@,
    }
}

/// The EPP target of a power mode.
pub open spec fn epp_of(m: PowerMode) -> EppPreference {
    match m {
        PowerMode::Work => EppPreference::BalancePower,
        PowerMode::GameBattery => EppPreference::Power,
        PowerMode::Game => EppPreference::Performance,
    }
}

/// The CPU boost target of a power mode.
pub open spec fn boost_of(m: PowerMode) -> bool {
    !(m is GameBattery)
}

/// The description of a power mode.
pub open spec fn description_of(m: PowerMode) -> Seq<char> {
    match m {
        PowerMode::Work => "Balanced platform profile with balance_power EPP and CPU boost enabled for everyday workloads"@,
        PowerMode::GameBattery => "Power-saver platform profile with power EPP and CPU boost disabled to eliminate battery draw spikes"@,
        PowerMode::Game => "Performance platform profile with performance EPP and CPU boost enabled for maximum frame rates"@,
    }
}

/// Whether `d` is the definition of mode `m`.
pub open spec fn is_definition_of(d: PowerModeDefinition, m: PowerMode) -> bool {
    &&& d.mode == m
    &&& d.platform_profile@ == profile_of(m)
    &&& d.epp == epp_of(m)
    &&& d.boost == boost_of(m)
    &&& d.description@ == description_of(m)
}

/// Returns the definition corresponding to the specified power mode.
pub fn get_definition(mode: PowerMode) -> (r: PowerModeDefinition)
    ensures
        is_definition_of(r, mode),
{
    match mode {
        PowerMode::Work => PowerModeDefinition {
            mode: PowerMode::Work,
            platform_profile: "balanced",
            epp: EppPreference::BalancePower,
            boost: true,
            description: "Balanced platform profile with balance_power EPP and CPU boost enabled for everyday workloads",
        },
        PowerMode::GameBattery => PowerModeDefinition {
            mode: PowerMode::GameBattery,
            platform_profile: "power-saver",
            epp: EppPreference::Power,
            boost: false,
            description: "Power-saver platform profile with power EPP and CPU boost disabled to eliminate battery draw spikes",
        },
        PowerMode::Game => PowerModeDefinition {
            mode: PowerMode::Game,
            platform_profile: "performance",
            epp: EppPreference::Performance,
            boost: true,
            description: "Performance platform profile with performance EPP and CPU boost enabled for maximum frame rates",
        },
    }
}

} // verus!
