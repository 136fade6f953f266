//! The power service's own logic: legacy profile names, saved settings and
//! their validation, the profile choices the firmware offers, the report of
//! the power state, and which game is running.

use vstd::prelude::*;
use crate::power_model::{PowerMode, mode_name, profile_of};
use crate::power_engine::{ModeOutcome, UnifiedPowerEngine};
use crate::text::{
    append, concat, is_prefix, lowercase_of, owned, spec_trim, spec_words, split_whitespace,
    starts_with, str_eq, to_lowercase, trim, trim_both, trim_chars, views,
};

verus! {

/// The power mode that a legacy profile string or power mode name denotes,
/// after trimming and lowercasing.
pub open spec fn legacy_mode(s: Seq<char>) -> Option<PowerMode> {
    let n = lowercase_of(spec_trim(s));
    if n == "work"@ || n == "balanced"@ || n == "default"@ {
        Some(PowerMode::Work)
    } else if n == "game-battery"@ || n == "gamebattery"@ || n == "game_battery"@ || n
        == "battery"@ || n == "power-saver"@ || n == "powersaver"@ || n == "power_saver"@ || n
        == "quiet"@ || n == "low-power"@ || n == "cool"@ {
        Some(PowerMode::GameBattery)
    } else if n == "game"@ || n == "game-plugged"@ || n == "gameplugged"@ || n == "game_plugged"@
        || n == "performance"@ || n == "gaming"@ || n == "max"@ || n == "plugged"@ || n
        == "custom"@ {
        Some(PowerMode::Game)
    } else {
        None
    }
}

fn eq_any(s: &str, names: &[&str]) -> (r: bool)
    ensures
        r == exists|i: int| 0 <= i < names@.len() && s@ == (#[trigger] names@[i])@,
{
    let mut i: usize = 0;
    while i < names.len()
        invariant
            i <= names@.len(),
            forall|j: int| 0 <= j < i ==> s@ != (#[trigger] names@[j])@,
        decreases names.len() - i,
    {
        if str_eq(s, names[i]) {
            return true;
        }
        i = i + 1;
    }
    false
}

/// Maps legacy profile strings and power mode names to a power mode.
fn legacy_power_mode(s: &str) -> (r: Option<PowerMode>)
    ensures
        r == legacy_mode(s@),
{
    let t = trim(s);
    let n = to_lowercase(t.as_str());
    let n = n.as_str();
    let work = ["work", "balanced", "default"];
    let battery = [
        "game-battery",
        "gamebattery",
        "game_battery",
        "battery",
        "power-saver",
        "powersaver",
        "power_saver",
        "quiet",
        "low-power",
        "cool",
    ];
    let game = [
        "game",
        "game-plugged",
        "gameplugged",
        "game_plugged",
        "performance",
        "gaming",
        "max",
        "plugged",
        "custom",
    ];
    let in_work = eq_any(n, &work);
    let in_battery = eq_any(n, &battery);
    let in_game = eq_any(n, &game);
    proof {
        assert(work@ =~= seq!["work", "balanced", "default"]);
        assert(battery@ =~= seq![
            "game-battery",
            "gamebattery",
            "game_battery",
            "battery",
            "power-saver",
            "powersaver",
            "power_saver",
            "quiet",
            "low-power",
            "cool",
        ]);
        assert(game@ =~= seq![
            "game",
            "game-plugged",
            "gameplugged",
            "game_plugged",
            "performance",
            "gaming",
            "max",
            "plugged",
            "custom",
        ]);
        if n@ == "work"@ || n@ == "balanced"@ || n@ == "default"@ {
            assert(in_work);
        }
        if !(n@ == "work"@ || n@ == "balanced"@ || n@ == "default"@) {
            assert(!in_work);
        }
    }
    if in_work {
        Some(PowerMode::Work)
    } else if in_battery {
        Some(PowerMode::GameBattery)
    } else if in_game {
        Some(PowerMode::Game)
    } else {
        None
    }
}

/// The profile name that a raw profile string denotes, after lowercasing:
/// `performance` for `performance`/`custom`, `power-saver` for
/// `low-power`/`quiet`/`cool`/`power-saver`, `balanced` for anything else.
pub open spec fn normal_profile(raw: Seq<char>) -> Seq<char> {
    let l = lowercase_of(raw);
    if l == "performance"@ || l == "custom"@ {
        "performance"@
    } else if l == "low-power"@ || l == "quiet"@ || l == "cool"@ || l == "power-saver"@ {
        "power-saver"@
    } else {
        "balanced"@
    }
}

/// The profile name that a raw profile string denotes.
pub fn normalize_profile(raw: &str) -> (r: &'static str)
    ensures
        r@ == normal_profile(raw@),
{
    let l = to_lowercase(raw);
    let l = l.as_str();
    if str_eq(l, "performance") || str_eq(l, "custom") {
        "performance"
    } else if str_eq(l, "low-power") || str_eq(l, "quiet") || str_eq(l, "cool") || str_eq(
        l,
        "power-saver",
    ) {
        "power-saver"
    } else {
        "balanced"
    }
}

/// The legacy profile name saved for a power mode.
pub fn mode_profile_name(m: PowerMode) -> (r: &'static str)
    ensures
        r@ == profile_of(m),
{
    match m {
        PowerMode::Work => "balanced",
        PowerMode::GameBattery => "power-saver",
        PowerMode::Game => "performance",
    }
}

/// Law: the legacy profile name of a mode, and its mode name, both denote
/// that mode again; and the profile name is already normal.
pub proof fn lemma_profile_name_round_trip(m: PowerMode)
    ensures
        legacy_mode(profile_of(m)) == Some(m),
        legacy_mode(mode_name(m)) == Some(m),
        normal_profile(profile_of(m)) == profile_of(m),
{
    reveal_strlit("balanced");
    reveal_strlit("power-saver");
    reveal_strlit("performance");
    reveal_strlit("work");
    reveal_strlit("game-battery");
    reveal_strlit("game");
    reveal_strlit("default");
    reveal_strlit("gamebattery");
    reveal_strlit("game_battery");
    reveal_strlit("battery");
    reveal_strlit("powersaver");
    reveal_strlit("power_saver");
    reveal_strlit("quiet");
    reveal_strlit("low-power");
    reveal_strlit("cool");
    reveal_strlit("game-plugged");
    reveal_strlit("gameplugged");
    reveal_strlit("game_plugged");
    reveal_strlit("gaming");
    reveal_strlit("max");
    reveal_strlit("plugged");
    reveal_strlit("custom");
    let p = profile_of(m);
    let n = mode_name(m);
    crate::text::lemma_plain_token_normal(p);
    crate::text::lemma_plain_token_normal(n);
    assert(spec_trim(p) == p && lowercase_of(p) == p);
    assert(spec_trim(n) == n && lowercase_of(n) == n);
}

/// One saved per-game profile: the game's identifier and the fan mode to
/// use while it runs, if the profile names one.
#[derive(Debug, Clone, PartialEq, Eq)]
pub struct AppProfile {
    pub app_id: String,
    pub fan_mode: Option<String>,
}

/// The saved power settings.
#[derive(Debug, Clone, PartialEq, Eq)]
pub struct PowerConfig {
    pub power_profile: String,
    pub app_profiles_enabled: bool,
    pub app_profiles: Vec<AppProfile>,
    pub undervolt_mv: i32,
    pub tcc_offset: i32,
    pub pl1_w: u32,
    pub pl2_w: u32,
    pub pl_enabled: bool,
    pub gpu_w: u32,
}

/// Whether no two saved profiles are for the same game.
pub open spec fn profiles_unique(p: Seq<AppProfile>) -> bool {
    forall|i: int, j: int|
        0 <= i < j < p.len() ==> (#[trigger] p[i]).app_id@ != (#[trigger] p[j]).app_id@
}

impl PowerConfig {
    /// The invariant of the saved settings: at most one profile per game.
    pub open spec fn wf(&self) -> bool {
        profiles_unique(self.app_profiles@)
    }
}

impl std::default::Default for PowerConfig {
    fn default() -> (r: PowerConfig)
        ensures
            r.wf(),
            r.power_profile@ == "balanced"@,
            !r.app_profiles_enabled,
            r.app_profiles@.len() == 0,
            r.undervolt_mv == 0,
            r.tcc_offset == 0,
            r.pl1_w == 45,
            r.pl2_w == 80,
            !r.pl_enabled,
            r.gpu_w == 0,
    {
        PowerConfig {
            power_profile: owned("balanced"),
            app_profiles_enabled: false,
            app_profiles: Vec::new(),
            undervolt_mv: 0,
            tcc_offset: 0,
            pl1_w: 45,
            pl2_w: 80,
            pl_enabled: false,
            gpu_w: 0,
        }
    }
}

/// The clamp of `v` into `[lo, hi]`.
pub open spec fn clamped(v: int, lo: int, hi: int) -> int {
    if v < lo {
        lo
    } else if v > hi {
        hi
    } else {
        v
    }
}

/// The power limits that a request gives when both are in their safe range
/// (PL1 in 1..=200 W, PL2 in 1..=250 W): PL1, and PL2 raised to PL1 when
/// it is lower; none otherwise.
pub open spec fn limits_of(pl1: i32, pl2: i32) -> Option<(u32, u32)> {
    if 1 <= pl1 <= 200 && 1 <= pl2 <= 250 {
        Some((pl1 as u32, if pl2 < pl1 { pl1 as u32 } else { pl2 as u32 }))
    } else {
        None
    }
}

/// Validate requested power limits.
pub fn validate_power_limits(pl1: i32, pl2: i32) -> (r: Option<(u32, u32)>)
    ensures
        r == limits_of(pl1, pl2),
{
    if !(1 <= pl1 && pl1 <= 200) {
        return None;
    }
    if !(1 <= pl2 && pl2 <= 250) {
        return None;
    }
    let pl2 = if pl2 < pl1 {
        pl1
    } else {
        pl2
    };
    Some((pl1 as u32, pl2 as u32))
}

/// Law: accepted limits satisfy PL1 <= PL2, both in their safe ranges.
pub proof fn lemma_limits_ordered(pl1: i32, pl2: i32)
    ensures
        limits_of(pl1, pl2) matches Some((a, b)) ==> 1 <= a <= 200 && a <= b <= 250,
{
}

impl PowerConfig {
    /// The saved profile follows the engine's mode, when it has one.
    pub fn sync_with_mode(&mut self, mode: Option<PowerMode>)
        ensures
            final(self).power_profile@ == match mode {
                Some(m) => profile_of(m),
                None => old(self).power_profile@,
            },
            final(self).app_profiles == old(self).app_profiles,
            final(self).app_profiles_enabled == old(self).app_profiles_enabled,
            final(self).undervolt_mv == old(self).undervolt_mv,
            final(self).tcc_offset == old(self).tcc_offset,
            final(self).pl1_w == old(self).pl1_w,
            final(self).pl2_w == old(self).pl2_w,
            final(self).pl_enabled == old(self).pl_enabled,
            final(self).gpu_w == old(self).gpu_w,
    {
        match mode {
            Some(m) => {
                self.power_profile = owned(mode_profile_name(m));
            },
            None => {},
        }
    }

    /// Apply a power limit request: when valid, it is saved (with PL2
    /// raised to PL1) and `OK` is returned; otherwise nothing changes and
    /// `FAIL` is returned.
    pub fn set_power_limits(&mut self, enabled: bool, pl1: i32, pl2: i32) -> (r: &'static str)
        ensures
            match limits_of(pl1, pl2) {
                Some((a, b)) => {
                    &&& r@ == "OK"@
                    &&& final(self).pl_enabled == enabled
                    &&& final(self).pl1_w == a
                    &&& final(self).pl2_w == b
                    &&& final(self).power_profile == old(self).power_profile
                    &&& final(self).app_profiles == old(self).app_profiles
                    &&& final(self).app_profiles_enabled == old(self).app_profiles_enabled
                    &&& final(self).undervolt_mv == old(self).undervolt_mv
                    &&& final(self).tcc_offset == old(self).tcc_offset
                    &&& final(self).gpu_w == old(self).gpu_w
                },
                None => r@ == "FAIL"@ && *final(self) == *old(self),
            },
    {
        match validate_power_limits(pl1, pl2) {
            Some((a, b)) => {
                self.pl_enabled = enabled;
                self.pl1_w = a;
                self.pl2_w = b;
                "OK"
            },
            None => "FAIL",
        }
    }

    /// Save an undervolt offset, clamped into -250..=250 mV.
    pub fn set_undervolt(&mut self, mv: i32)
        ensures
            final(self).undervolt_mv == clamped(mv as int, -250, 250),
            final(self).power_profile == old(self).power_profile,
            final(self).app_profiles == old(self).app_profiles,
            final(self).app_profiles_enabled == old(self).app_profiles_enabled,
            final(self).tcc_offset == old(self).tcc_offset,
            final(self).pl1_w == old(self).pl1_w,
            final(self).pl2_w == old(self).pl2_w,
            final(self).pl_enabled == old(self).pl_enabled,
            final(self).gpu_w == old(self).gpu_w,
    {
        self.undervolt_mv = if mv < -250 {
            -250
        } else if mv > 250 {
            250
        } else {
            mv
        };
    }

    /// Save a TCC offset, clamped into 0..=15.
    pub fn set_tcc_offset(&mut self, val: i32)
        ensures
            final(self).tcc_offset == clamped(val as int, 0, 15),
            final(self).power_profile == old(self).power_profile,
            final(self).app_profiles == old(self).app_profiles,
            final(self).app_profiles_enabled == old(self).app_profiles_enabled,
            final(self).undervolt_mv == old(self).undervolt_mv,
            final(self).pl1_w == old(self).pl1_w,
            final(self).pl2_w == old(self).pl2_w,
            final(self).pl_enabled == old(self).pl_enabled,
            final(self).gpu_w == old(self).gpu_w,
    {
        self.tcc_offset = if val < 0 {
            0
        } else if val > 15 {
            15
        } else {
            val
        };
    }
}

/// The profile names that a choices file lists: each word with `[` and `]`
/// trimmed, lowercased, then normalized.
pub open spec fn choice_names(content: Seq<char>) -> Seq<Seq<char>> {
    spec_words(content).map_values(
        |w: Seq<char>| normal_profile(lowercase_of(trim_both(w, '[', ']'))),
    )
}

/// The names in order of first occurrence, each once.
pub open spec fn dedup(s: Seq<Seq<char>>) -> Seq<Seq<char>>
    decreases s.len(),
{
    if s.len() == 0 {
        seq![]
    } else {
        let d = dedup(s.drop_last());
        if d.contains(s.last()) {
            d
        } else {
            d.push(s.last())
        }
    }
}

/// What probing one platform profile location showed: whether the profile
/// file exists, and what reading its `_choices` and `-choices` files gave
/// (none when a read failed).
#[derive(Debug, Clone, PartialEq, Eq)]
pub struct ChoicesProbe {
    pub exists: bool,
    pub underscore: Option<String>,
    pub dash: Option<String>,
}

/// The profiles that one location offers: those its `_choices` file lists,
/// else those its `-choices` file lists; none when the location is absent
/// or neither file lists any.
pub open spec fn probe_choices(p: ChoicesProbe) -> Option<Seq<Seq<char>>> {
    if !p.exists {
        None
    } else {
        match p.underscore {
            Some(c) if choice_names(c@).len() > 0 => Some(dedup(choice_names(c@))),
            _ => match p.dash {
                Some(c) if choice_names(c@).len() > 0 => Some(dedup(choice_names(c@))),
                _ => None,
            },
        }
    }
}

/// The profiles shown as available: those of the first location that
/// offers any, else the three standard profiles.
pub open spec fn available_from(probes: Seq<ChoicesProbe>) -> Seq<Seq<char>>
    decreases probes.len(),
{
    if probes.len() == 0 {
        seq!["power-saver"@, "balanced"@, "performance"@]
    } else {
        match probe_choices(probes[0]) {
            Some(c) => c,
            None => available_from(probes.drop_first()),
        }
    }
}

fn choices_of(content: &str) -> (r: Vec<String>)
    ensures
        views(r@) == dedup(choice_names(content@)),
{
    let words = split_whitespace(content);
    let mut r: Vec<String> = Vec::new();
    let mut i: usize = 0;
    while i < words.len()
        invariant
            i <= words.len(),
            views(words@) == spec_words(content@),
            views(r@) == dedup(choice_names(content@).subrange(0, i as int)),
        decreases words.len() - i,
    {
        let t = trim_chars(words[i].as_str(), '[', ']');
        let l = to_lowercase(t.as_str());
        let n = normalize_profile(l.as_str());
        let ghost pre = choice_names(content@).subrange(0, i as int);
        let ghost nxt = choice_names(content@).subrange(0, i + 1);
        assert(nxt.drop_last() =~= pre);
        assert(views(words@)[i as int] == words@[i as int]@);
        assert(nxt.last() == n@);
        if !crate::text::contains_str(&r, n) {
            let ghost before = views(r@);
            r.push(owned(n));
            assert(views(r@) =~= before.push(n@));
        }
        i = i + 1;
    }
    assert(choice_names(content@).subrange(0, words@.len() as int) =~= choice_names(content@));
    r
}

fn standard_profiles() -> (r: Vec<String>)
    ensures
        views(r@) == seq!["power-saver"@, "balanced"@, "performance"@],
{
    let mut r: Vec<String> = Vec::new();
    r.push(owned("power-saver"));
    r.push(owned("balanced"));
    r.push(owned("performance"));
    assert(views(r@) =~= seq!["power-saver"@, "balanced"@, "performance"@]);
    r
}

/// The profiles shown as available, from what probing the platform profile
/// locations, in order, showed.
pub fn available_profiles(probes: &Vec<ChoicesProbe>) -> (r: Vec<String>)
    ensures
        views(r@) == available_from(probes@),
{
    let mut i: usize = 0;
    assert(probes@.skip(0) =~= probes@);
    while i < probes.len()
        invariant
            i <= probes.len(),
            available_from(probes@) == available_from(probes@.skip(i as int)),
        decreases probes.len() - i,
    {
        assert(probes@.skip(i as int).drop_first() =~= probes@.skip(i + 1));
        let p = &probes[i];
        if p.exists {
            match &p.underscore {
                Some(c) => {
                    let v = choices_of(c.as_str());
                    if v.len() > 0 {
                        return v;
                    }
                    proof {
                        lemma_dedup_empty(choice_names(c@));
                    }
                },
                None => {},
            }
            match &p.dash {
                Some(c) => {
                    let v = choices_of(c.as_str());
                    if v.len() > 0 {
                        return v;
                    }
                    proof {
                        lemma_dedup_empty(choice_names(c@));
                    }
                },
                None => {},
            }
        }
        i = i + 1;
    }
    standard_profiles()
}

/// Deduplicating keeps a sequence empty exactly when it is empty.
proof fn lemma_dedup_empty(s: Seq<Seq<char>>)
    ensures
        (dedup(s).len() == 0) == (s.len() == 0),
    decreases s.len(),
{
    if s.len() > 0 {
        lemma_dedup_empty(s.drop_last());
    }
}

/// Deduplicated names occur once each, and each occurs in the input.
proof fn lemma_dedup_distinct(s: Seq<Seq<char>>)
    ensures
        forall|i: int, j: int| 0 <= i < j < dedup(s).len() ==> dedup(s)[i] != dedup(s)[j],
        forall|i: int| 0 <= i < dedup(s).len() ==> s.contains(#[trigger] dedup(s)[i]),
    decreases s.len(),
{
    if s.len() > 0 {
        lemma_dedup_distinct(s.drop_last());
        let d = dedup(s.drop_last());
        assert forall|i: int| 0 <= i < dedup(s).len() implies s.contains(#[trigger] dedup(s)[i]) by {
            if i < d.len() {
                let k = choose|k: int| 0 <= k < s.drop_last().len() && s.drop_last()[k] == d[i];
                assert(s[k] == d[i]);
            } else {
                assert(s[s.len() - 1] == s.last());
            }
        }
    }
}

/// Whether a name is one of the three standard profile names.
pub open spec fn is_standard_profile(n: Seq<char>) -> bool {
    n == "power-saver"@ || n == "balanced"@ || n == "performance"@
}

proof fn lemma_choice_names_standard(c: Seq<char>)
    ensures
        forall|k: int|
            0 <= k < choice_names(c).len() ==> is_standard_profile(#[trigger] choice_names(c)[k]),
{
}

proof fn lemma_dedup_standard(s: Seq<Seq<char>>)
    requires
        forall|k: int| 0 <= k < s.len() ==> is_standard_profile(#[trigger] s[k]),
    ensures
        forall|i: int| 0 <= i < dedup(s).len() ==> is_standard_profile(#[trigger] dedup(s)[i]),
    decreases s.len(),
{
    if s.len() > 0 {
        let t = s.drop_last();
        assert forall|k: int| 0 <= k < t.len() implies is_standard_profile(#[trigger] t[k]) by {
            assert(t[k] == s[k]);
        }
        lemma_dedup_standard(t);
        assert(is_standard_profile(s[s.len() - 1]));
        let d = dedup(t);
        assert forall|i: int| 0 <= i < dedup(s).len() implies is_standard_profile(
            #[trigger] dedup(s)[i],
        ) by {
            if i < d.len() {
                assert(dedup(s)[i] == d[i]);
            }
        }
    }
}

/// Law: the available profiles are distinct, and each is one of the three
/// standard profile names.
pub proof fn lemma_available_profiles_distinct_and_standard(probes: Seq<ChoicesProbe>)
    ensures
        forall|i: int, j: int|
            0 <= i < j < available_from(probes).len() ==> available_from(probes)[i]
                != available_from(probes)[j],
        forall|i: int|
            0 <= i < available_from(probes).len() ==> is_standard_profile(
                #[trigger] available_from(probes)[i],
            ),
    decreases probes.len(),
{
    reveal_strlit("power-saver");
    reveal_strlit("balanced");
    reveal_strlit("performance");
    if probes.len() == 0 {
        let s = available_from(probes);
        assert(s =~= seq!["power-saver"@, "balanced"@, "performance"@]);
        assert("power-saver"@ != "balanced"@) by {
            assert("power-saver"@.len() != "balanced"@.len());
        }
        assert("balanced"@ != "performance"@) by {
            assert("balanced"@.len() != "performance"@.len());
        }
        assert("power-saver"@ != "performance"@) by {
            assert("power-saver"@[1] != "performance"@[1]);
        }
        assert forall|i: int, j: int| 0 <= i < j < s.len() implies s[i] != s[j] by {
            if i == 0 && j == 1 {
            } else if i == 0 && j == 2 {
            } else {
                assert(i == 1 && j == 2);
            }
        }
        assert forall|i: int| 0 <= i < s.len() implies is_standard_profile(#[trigger] s[i]) by {
            if i == 0 {
            } else if i == 1 {
            } else {
                assert(i == 2);
            }
        }
    } else {
        let p = probes[0];
        match probe_choices(p) {
            Some(c) => {
                let u = p.underscore;
                let raw = if u is Some && choice_names(u->0@).len() > 0 {
                    u->0@
                } else {
                    p.dash->0@
                };
                assert(c == dedup(choice_names(raw)));
                assert(available_from(probes) == c);
                lemma_dedup_distinct(choice_names(raw));
                lemma_choice_names_standard(raw);
                lemma_dedup_standard(choice_names(raw));
            },
            None => {
                assert(available_from(probes) == available_from(probes.drop_first()));
                lemma_available_profiles_distinct_and_standard(probes.drop_first());
            },
        }
    }
}

/// What the power service reports of the power state.
#[derive(Debug, Clone, PartialEq, Eq)]
pub struct PowerProfileReport {
    /// The active platform profile: the active mode's, else the saved one.
    pub active: String,
    /// The name of the authoritative mode, or `unknown`.
    pub power_mode: String,
    /// The profiles the firmware offers.
    pub profiles: Vec<String>,
    /// PL1 in watts: the RAPL limit when it can be read, else the saved one.
    pub pl1_w: u32,
    /// PL2 in watts: the RAPL limit when it can be read, else the saved one.
    pub pl2_w: u32,
}

/// The watts that a RAPL limit file's content gives (microwatts, after
/// trimming, as a `u32`), else the saved value.
pub open spec fn rapl_watts(read: Option<String>, saved: u32) -> u32 {
    match read {
        Some(c) => match crate::text::spec_parse_unsigned(spec_trim(c@)) {
            Some(uw) => if uw <= u32::MAX {
                (uw / 1_000_000) as u32
            } else {
                saved
            },
            None => saved,
        },
        None => saved,
    }
}

fn watts_of(read: &Option<String>, saved: u32) -> (r: u32)
    ensures
        r == rapl_watts(*read, saved),
{
    match read {
        Some(c) => {
            let t = trim(c.as_str());
            match crate::text::parse_unsigned(t.as_str(), u32::MAX as u64) {
                Some(uw) => (uw / 1_000_000) as u32,
                None => saved,
            }
        },
        None => saved,
    }
}

/// The report of the power state, from the saved settings, the engine's
/// mode, what reading the two RAPL limit files gave (none when a read
/// failed) and the available profiles.
pub fn power_profile_report(
    config: &PowerConfig,
    mode: Option<PowerMode>,
    rapl_pl1: Option<String>,
    rapl_pl2: Option<String>,
    profiles: Vec<String>,
) -> (r: PowerProfileReport)
    ensures
        r.active@ == match mode {
            Some(m) => profile_of(m),
            None => config.power_profile@,
        },
        r.power_mode@ == match mode {
            Some(m) => mode_name(m),
            None => "unknown"@,
        },
        r.profiles == profiles,
        r.pl1_w == rapl_watts(rapl_pl1, config.pl1_w),
        r.pl2_w == rapl_watts(rapl_pl2, config.pl2_w),
{
    let (active, power_mode) = match mode {
        Some(m) => (owned(mode_profile_name(m)), owned(m.as_str())),
        None => (config.power_profile.clone(), owned("unknown")),
    };
    PowerProfileReport {
        active,
        power_mode,
        profiles,
        pl1_w: watts_of(&rapl_pl1, config.pl1_w),
        pl2_w: watts_of(&rapl_pl2, config.pl2_w),
    }
}

/// The reply to `GetPowerMode`: the authoritative mode's name, or `unknown`.
pub fn power_mode_reply(mode: Option<PowerMode>) -> (r: &'static str)
    ensures
        r@ == match mode {
            Some(m) => mode_name(m),
            None => "unknown"@,
        },
{
    match mode {
        Some(m) => m.as_str(),
        None => "unknown",
    }
}

/// The reply to `SetPowerMode` for a mode text that names no mode.
pub fn unrecognized_mode_reply(mode: &str) -> (r: String)
    ensures
        r@ == "FAIL: unrecognized mode '"@ + mode@ + "'"@,
{
    let mut r = concat("FAIL: unrecognized mode '", mode);
    append(&mut r, "'");
    r
}

/// The reply to `SetPowerMode` once the engine applied the mode or failed:
/// `OK`, or `FAIL: ` and the error's message.
pub fn set_power_mode_reply(result: &Result<(), crate::power_engine::PowerEngineError>) -> (r: String)
    ensures
        match result {
            Ok(()) => r@ == "OK"@,
            Err(e) => r@ == "FAIL: "@ + crate::power_engine::engine_error_message(*e),
        },
{
    match result {
        Ok(()) => owned("OK"),
        Err(e) => {
            let m = e.message();
            concat("FAIL: ", m.as_str())
        },
    }
}

/// The base directory of the GPU power controls: `hp-wmi` when it exists,
/// otherwise `hp-omen`.
pub fn gpu_power_base(hp_wmi_exists: bool) -> (r: &'static str)
    ensures
        r@ == if hp_wmi_exists {
            "/sys/devices/platform/hp-wmi"@
        } else {
            "/sys/devices/platform/hp-omen"@
        },
{
    if hp_wmi_exists {
        "/sys/devices/platform/hp-wmi"
    } else {
        "/sys/devices/platform/hp-omen"
    }
}

/// The GPU TGP and PPAB values for a profile: both on for `performance`,
/// PPAB alone for `balanced`, both off otherwise.
pub fn gpu_power_values(profile: &str) -> (r: (&'static str, &'static str))
    ensures
        r.0@ == (if profile@ == "performance"@ {
            "1"@
        } else {
            "0"@
        }),
        r.1@ == (if profile@ == "performance"@ || profile@ == "balanced"@ {
            "1"@
        } else {
            "0"@
        }),
{
    if str_eq(profile, "performance") {
        ("1", "1")
    } else if str_eq(profile, "balanced") {
        ("0", "1")
    } else {
        ("0", "0")
    }
}

/// The `nvidia-smi` query for a profile's power limit: the maximum for
/// `performance`, the default otherwise.
pub fn nvidia_query(profile: &str) -> (r: &'static str)
    ensures
        r@ == (if profile@ == "performance"@ {
            "--query-gpu=power.max_limit"@
        } else {
            "--query-gpu=power.default_limit"@
        }),
{
    if str_eq(profile, "performance") {
        "--query-gpu=power.max_limit"
    } else {
        "--query-gpu=power.default_limit"
    }
}

/// The text before the first `=` (all of it when there is none).
pub open spec fn before_eq(s: Seq<char>) -> Seq<char>
    decreases s.len(),
{
    if s.len() == 0 || s[0] == '=' {
        seq![]
    } else {
        seq![s[0]] + before_eq(s.drop_first())
    }
}

/// The value of an environment entry `KEY=value` whose key `prefix` (ending
/// in `=`) it starts with: what follows, up to the next `=`.
pub open spec fn env_value(item: Seq<char>, prefix: Seq<char>) -> Seq<char> {
    before_eq(item.skip(prefix.len() as int))
}

/// The game identifiers that a process's environment carries, entry by
/// entry; a later entry of a kind replaces an earlier one.
pub open spec fn env_scan(items: Seq<String>) -> (Option<Seq<char>>, Option<Seq<char>>, Option<Seq<char>>)
    decreases items.len(),
{
    if items.len() == 0 {
        (None, None, None)
    } else {
        let (steam, lutris, flatpak) = env_scan(items.drop_last());
        let s = items.last()@;
        if is_prefix("STEAM_COMPAT_APP_ID="@, s) {
            (Some(env_value(s, "STEAM_COMPAT_APP_ID="@)), lutris, flatpak)
        } else if is_prefix("SteamAppId="@, s) {
            (Some(env_value(s, "SteamAppId="@)), lutris, flatpak)
        } else if is_prefix("LUTRIS_GAME_UUID="@, s) {
            (steam, Some(env_value(s, "LUTRIS_GAME_UUID="@)), flatpak)
        } else if is_prefix("LUTRIS_GAME_SLUG="@, s) {
            (steam, Some(env_value(s, "LUTRIS_GAME_SLUG="@)), flatpak)
        } else if is_prefix("FLATPAK_ID="@, s) {
            (steam, lutris, Some(env_value(s, "FLATPAK_ID="@)))
        } else {
            (steam, lutris, flatpak)
        }
    }
}

/// The game that a process's environment identifies: a non-empty Steam app
/// id first, then a Lutris game, then a Flatpak app.
pub open spec fn env_app_id(items: Seq<String>) -> Option<Seq<char>> {
    let (steam, lutris, flatpak) = env_scan(items);
    if steam is Some && steam->0.len() > 0 {
        Some("steam_"@ + steam->0)
    } else if lutris is Some && lutris->0.len() > 0 {
        Some("lutris_"@ + lutris->0)
    } else if flatpak is Some && flatpak->0.len() > 0 {
        Some("flatpak_"@ + flatpak->0)
    } else {
        None
    }
}

fn value_after(item: &str, prefix_len: usize) -> (r: String)
    requires
        prefix_len <= item@.len(),
    ensures
        r@ == before_eq(item@.skip(prefix_len as int)),
{
    let v = crate::text::chars_of(item);
    let mut j: usize = prefix_len;
    while j < v.len() && v[j] != '='
        invariant
            v@ == item@,
            prefix_len <= j <= v@.len(),
            before_eq(item@.skip(prefix_len as int)) == item@.subrange(prefix_len as int, j as int)
                + before_eq(item@.skip(j as int)),
        decreases v.len() - j,
    {
        assert(item@.skip(j as int).drop_first() =~= item@.skip(j + 1));
        assert(item@.subrange(prefix_len as int, j + 1) =~= item@.subrange(prefix_len as int, j as int)
            + seq![item@[j as int]]);
        j = j + 1;
    }
    proof {
        if j < v.len() {
            assert(item@.skip(j as int)[0] == '=');
        }
        assert(before_eq(item@.skip(j as int)) =~= seq![]);
    }
    crate::text::string_of(&v, prefix_len, j)
}

/// The game that a process's environment entries identify, if any.
pub fn detect_app_id(items: &Vec<String>) -> (r: Option<String>)
    ensures
        match env_app_id(items@) {
            Some(id) => r matches Some(s) && s@ == id,
            None => r is None,
        },
{
    let mut steam: Option<String> = None;
    let mut lutris: Option<String> = None;
    let mut flatpak: Option<String> = None;
    let mut i: usize = 0;
    assert(items@.subrange(0, 0) =~= seq![]);
    while i < items.len()
        invariant
            i <= items.len(),
            env_scan(items@.subrange(0, i as int)) == (
                crate::cpu_energy::opt_view(steam),
                crate::cpu_energy::opt_view(lutris),
                crate::cpu_energy::opt_view(flatpak),
            ),
        decreases items.len() - i,
    {
        let s = items[i].as_str();
        proof {
            reveal_strlit("STEAM_COMPAT_APP_ID=");
            reveal_strlit("SteamAppId=");
            reveal_strlit("LUTRIS_GAME_UUID=");
            reveal_strlit("LUTRIS_GAME_SLUG=");
            reveal_strlit("FLATPAK_ID=");
        }
        assert(items@.subrange(0, i + 1).drop_last() =~= items@.subrange(0, i as int));
        if starts_with(s, "STEAM_COMPAT_APP_ID=") {
            steam = Some(value_after(s, 20));
        } else if starts_with(s, "SteamAppId=") {
            steam = Some(value_after(s, 11));
        } else if starts_with(s, "LUTRIS_GAME_UUID=") {
            lutris = Some(value_after(s, 17));
        } else if starts_with(s, "LUTRIS_GAME_SLUG=") {
            lutris = Some(value_after(s, 17));
        } else if starts_with(s, "FLATPAK_ID=") {
            flatpak = Some(value_after(s, 11));
        }
        i = i + 1;
    }
    assert(items@.subrange(0, items@.len() as int) =~= items@);
    match steam {
        Some(id) => {
            if id.as_str().unicode_len() > 0 {
                return Some(concat("steam_", id.as_str()));
            }
        },
        None => {},
    }
    match lutris {
        Some(id) => {
            if id.as_str().unicode_len() > 0 {
                return Some(concat("lutris_", id.as_str()));
            }
        },
        None => {},
    }
    match flatpak {
        Some(id) => {
            if id.as_str().unicode_len() > 0 {
                return Some(concat("flatpak_", id.as_str()));
            }
        },
        None => {},
    }
    None
}

/// Whether a `/proc` entry name is a process id: all ASCII digits.
pub fn is_pid_dir(name: &str) -> (r: bool)
    ensures
        r == forall|i: int| 0 <= i < name@.len() ==> crate::text::is_digit(#[trigger] name@[i]),
{
    let v = crate::text::chars_of(name);
    let mut i: usize = 0;
    while i < v.len()
        invariant
            v@ == name@,
            i <= v@.len(),
            forall|j: int| 0 <= j < i ==> crate::text::is_digit(#[trigger] name@[j]),
        decreases v.len() - i,
    {
        if !('0' <= v[i] && v[i] <= '9') {
            return false;
        }
        i = i + 1;
    }
    true
}

/// Whether a saved profile exists for a game.
pub open spec fn has_profile(profiles: Seq<AppProfile>, id: Seq<char>) -> bool {
    exists|k: int| 0 <= k < profiles.len() && (#[trigger] profiles[k]).app_id@ == id
}

/// The index of the first saved profile for a game, if any.
fn find_profile(profiles: &Vec<AppProfile>, id: &str) -> (r: Option<usize>)
    ensures
        match r {
            Some(k) => k < profiles@.len() && profiles@[k as int].app_id@ == id@ && forall|j: int|
                0 <= j < k ==> (#[trigger] profiles@[j]).app_id@ != id@,
            None => !has_profile(profiles@, id@),
        },
{
    let mut k: usize = 0;
    while k < profiles.len()
        invariant
            k <= profiles@.len(),
            forall|j: int| 0 <= j < k ==> (#[trigger] profiles@[j]).app_id@ != id@,
        decreases profiles.len() - k,
    {
        if str_eq(profiles[k].app_id.as_str(), id) {
            return Some(k);
        }
        k = k + 1;
    }
    None
}

/// The first game, among the processes' identifications in scan order,
/// that has a saved profile.
pub open spec fn first_profiled(ids: Seq<Option<String>>, profiles: Seq<AppProfile>) -> Option<Seq<char>>
    decreases ids.len(),
{
    if ids.len() == 0 {
        None
    } else {
        match ids[0] {
            Some(id) if has_profile(profiles, id@) => Some(id@),
            _ => first_profiled(ids.drop_first(), profiles),
        }
    }
}

/// The running game with a saved profile, from each process's identification.
pub fn active_app(ids: &Vec<Option<String>>, profiles: &Vec<AppProfile>) -> (r: Option<String>)
    ensures
        crate::cpu_energy::opt_view(r) == first_profiled(ids@, profiles@),
{
    let mut i: usize = 0;
    assert(ids@.skip(0) =~= ids@);
    while i < ids.len()
        invariant
            i <= ids.len(),
            first_profiled(ids@, profiles@) == first_profiled(ids@.skip(i as int), profiles@),
        decreases ids.len() - i,
    {
        assert(ids@.skip(i as int).drop_first() =~= ids@.skip(i + 1));
        match &ids[i] {
            Some(id) => {
                if find_profile(profiles, id.as_str()).is_some() {
                    return Some(id.clone());
                }
            },
            None => {},
        }
        i = i + 1;
    }
    None
}

/// The fan mode that a game's saved profile asks for: its own, else `auto`;
/// none when there is no profile for the game.
pub fn profile_fan_mode(profiles: &Vec<AppProfile>, id: &str) -> (r: Option<String>)
    ensures
        !has_profile(profiles@, id@) ==> r is None,
        has_profile(profiles@, id@) ==> exists|k: int|
            0 <= k < profiles@.len() && (#[trigger] profiles@[k]).app_id@ == id@ && (r matches Some(
                f,
            ) && f@ == match profiles@[k].fan_mode {
                Some(m) => m@,
                None => "auto"@,
            }),
        profiles_unique(profiles@) ==> forall|k: int|
            0 <= k < profiles@.len() && (#[trigger] profiles@[k]).app_id@ == id@ ==> (r matches Some(
                f,
            ) && f@ == match profiles@[k].fan_mode {
                Some(m) => m@,
                None => "auto"@,
            }),
{
    match find_profile(profiles, id) {
        Some(k) => match &profiles[k].fan_mode {
            Some(m) => Some(m.clone()),
            None => Some(owned("auto")),
        },
        None => None,
    }
}

/// The game-profile monitor's memory: the game it last saw running, and
/// the profile and fan mode in effect before the first game started.
#[derive(Debug, Clone, PartialEq, Eq)]
pub struct AppState {
    pub active_app: Option<String>,
    pub pre_app_state: Option<(String, String)>,
}

/// What the monitor does on one scan.
#[derive(Debug, Clone, Copy, PartialEq, Eq, Structural)]
pub enum AppDecision {
    /// Nothing to do.
    Idle,
    /// Put back the fan mode saved before the game started.
    Restore,
    /// A game with a saved profile started: save the state before it (the
    /// first time) and apply its fan mode.
    Launch,
}

/// What the monitor decides, from the game it last saw, whether game
/// profiles are on (enabled and some saved), and the game now detected.
pub open spec fn app_decision(active: Option<Seq<char>>, on: bool, detected: Option<Seq<char>>) -> AppDecision {
    if !on {
        if active is Some {
            AppDecision::Restore
        } else {
            AppDecision::Idle
        }
    } else {
        match detected {
            Some(a) => if active != Some(a) {
                AppDecision::Launch
            } else {
                AppDecision::Idle
            },
            None => if active is Some {
                AppDecision::Restore
            } else {
                AppDecision::Idle
            },
        }
    }
}

impl AppState {
    /// A monitor that has seen no game.
    pub fn new() -> (r: AppState)
        ensures
            r.active_app is None,
            r.pre_app_state is None,
    {
        AppState { active_app: None, pre_app_state: None }
    }

    /// What to do on a scan.
    pub fn decide(&self, enabled: bool, profiles_saved: bool, detected: &Option<String>) -> (r: AppDecision)
        ensures
            r == app_decision(
                crate::cpu_energy::opt_view(self.active_app),
                enabled && profiles_saved,
                crate::cpu_energy::opt_view(*detected),
            ),
    {
        let same = match (&self.active_app, detected) {
            (Some(a), Some(d)) => str_eq(a.as_str(), d.as_str()),
            _ => false,
        };
        if !(enabled && profiles_saved) {
            if self.active_app.is_some() {
                AppDecision::Restore
            } else {
                AppDecision::Idle
            }
        } else {
            match detected {
                Some(_) => if !same {
                    AppDecision::Launch
                } else {
                    AppDecision::Idle
                },
                None => if self.active_app.is_some() {
                    AppDecision::Restore
                } else {
                    AppDecision::Idle
                },
            }
        }
    }

    /// Whether a launch must first learn the current fan mode: no state
    /// was saved yet.
    pub fn needs_saved_state(&self) -> (r: bool)
        ensures
            r == self.pre_app_state is None,
    {
        self.pre_app_state.is_none()
    }

    /// Record a game launch: the state before the first game is saved (the
    /// fan mode reported, else `auto`), and the game becomes the active one.
    pub fn launch(&mut self, app: String, current_profile: String, current_fan: Option<String>)
        ensures
            final(self).active_app == Some(app),
            match old(self).pre_app_state {
                Some(p) => final(self).pre_app_state == Some(p),
                None => final(self).pre_app_state matches Some((pp, pf)) && pp == current_profile
                    && pf@ == match current_fan {
                    Some(f) => f@,
                    None => "auto"@,
                },
            },
    {
        if self.pre_app_state.is_none() {
            let fan = match current_fan {
                Some(f) => f,
                None => owned("auto"),
            };
            self.pre_app_state = Some((current_profile, fan));
        }
        self.active_app = Some(app);
    }

    /// Forget the game and the saved state; returns the fan mode to put
    /// back, if one was saved. The power profile is never written back.
    pub fn restore(&mut self) -> (r: Option<String>)
        ensures
            final(self).active_app is None,
            final(self).pre_app_state is None,
            match old(self).pre_app_state {
                Some((_, f)) => r == Some(f),
                None => r is None,
            },
    {
        let mut pre: Option<(String, String)> = None;
        std::mem::swap(&mut pre, &mut self.pre_app_state);
        self.active_app = None;
        match pre {
            Some((_, f)) => Some(f),
            None => None,
        }
    }
}

/// Law: once a game's launch is recorded, scanning it again changes
/// nothing while profiles stay on.
pub proof fn lemma_launch_then_idle(app: Seq<char>)
    ensures
        app_decision(Some(app), true, Some(app)) == AppDecision::Idle,
{
}

/// What applying power limits asks for: RyzenAdj limits in milliwatts on
/// AMD, RAPL limits in microwatts otherwise.
#[derive(Debug, Clone, PartialEq, Eq)]
pub enum RaplPlan {
    /// Run `ryzenadj` with these arguments.
    Amd { args: Vec<String> },
    /// Write these microwatt values to the RAPL PL1 and PL2 files.
    Intel { pl1_uw: String, pl2_uw: String },
}

/// Whether a CPU description names an AMD processor: its uppercase form
/// contains `AMD`.
pub open spec fn is_amd(cpu_spec: Seq<char>) -> bool {
    crate::text::spec_contains(crate::text::uppercase_of(cpu_spec), "AMD"@)
}

/// Whether a CPU description names an AMD processor.
pub fn cpu_is_amd(cpu_spec: &str) -> (r: bool)
    ensures
        r == is_amd(cpu_spec@),
{
    let up = crate::text::to_uppercase(cpu_spec);
    crate::text::contains(up.as_str(), "AMD")
}

/// The plan for applying power limits of `pl1` and `pl2` watts on the CPU
/// that `cpu_spec` describes. The limits must fit the plan's unit as a
/// `u32`: milliwatts on AMD, microwatts otherwise.
pub fn rapl_plan(cpu_spec: &str, pl1: u32, pl2: u32) -> (r: RaplPlan)
    requires
        is_amd(cpu_spec@) ==> pl1 * 1000 <= u32::MAX && pl2 * 1000 <= u32::MAX,
        !is_amd(cpu_spec@) ==> pl1 * 1_000_000 <= u32::MAX && pl2 * 1_000_000 <= u32::MAX,
    ensures
        is_amd(cpu_spec@) ==> (r matches RaplPlan::Amd { args } && views(args@) == seq![
            "--stapm-limit="@ + crate::text::spec_decimal((pl1 * 1000) as nat),
            "--slow-limit="@ + crate::text::spec_decimal((pl1 * 1000) as nat),
            "--fast-limit="@ + crate::text::spec_decimal((pl2 * 1000) as nat),
        ]),
        !is_amd(cpu_spec@) ==> (r matches RaplPlan::Intel { pl1_uw, pl2_uw } && pl1_uw@
            == crate::text::spec_decimal((pl1 * 1_000_000) as nat) && pl2_uw@
            == crate::text::spec_decimal((pl2 * 1_000_000) as nat)),
{
    if cpu_is_amd(cpu_spec) {
        let mw1 = crate::text::decimal((pl1 * 1000) as u64);
        let mw2 = crate::text::decimal((pl2 * 1000) as u64);
        let mut args: Vec<String> = Vec::new();
        args.push(concat("--stapm-limit=", mw1.as_str()));
        args.push(concat("--slow-limit=", mw1.as_str()));
        args.push(concat("--fast-limit=", mw2.as_str()));
        assert(views(args@) =~= seq![
            "--stapm-limit="@ + crate::text::spec_decimal((pl1 * 1000) as nat),
            "--slow-limit="@ + crate::text::spec_decimal((pl1 * 1000) as nat),
            "--fast-limit="@ + crate::text::spec_decimal((pl2 * 1000) as nat),
        ]);
        RaplPlan::Amd { args }
    } else {
        RaplPlan::Intel {
            pl1_uw: crate::text::decimal((pl1 * 1_000_000) as u64),
            pl2_uw: crate::text::decimal((pl2 * 1_000_000) as u64),
        }
    }
}

/// What running a command gave: whether it exited successfully, and its
/// standard output.
#[derive(Debug, Clone, PartialEq, Eq)]
pub struct CommandOutput {
    pub success: bool,
    pub stdout: String,
}

/// One step that profile detection asks its caller to perform.
#[derive(Debug, Clone, PartialEq, Eq)]
pub enum ProbeAction {
    /// Run `program` with the single argument `arg`.
    Run { program: String, arg: String },
    /// Read the file at `path`.
    Read { path: String },
    /// Detection is complete.
    Done,
}

/// What the caller observed when performing the last step.
#[derive(Debug, PartialEq, Eq)]
pub enum ProbeEvent {
    /// The first call.
    Start,
    /// The command ran (with its output) or could not be started.
    Ran(Option<CommandOutput>),
    /// The content of the file, or the message of the error.
    ReadDone(Result<String, String>),
}

/// The view of a probe action.
pub enum ProbeActionView {
    Run { program: Seq<char>, arg: Seq<char> },
    Read { path: Seq<char> },
    Done,
}

/// The view of a probe action.
pub open spec fn probe_action_view(a: ProbeAction) -> ProbeActionView {
    match a {
        ProbeAction::Run { program, arg } => ProbeActionView::Run { program: program@, arg: arg@ },
        ProbeAction::Read { path } => ProbeActionView::Read { path: path@ },
        ProbeAction::Done => ProbeActionView::Done,
    }
}

/// The probes of profile detection, in order: `system76-power profile`,
/// `powerprofilesctl get`, the three platform profile files, the four
/// thermal profile files.
pub open spec fn probe(k: int) -> ProbeActionView {
    if k == 0 {
        ProbeActionView::Run { program: "system76-power"@, arg: "profile"@ }
    } else if k == 1 {
        ProbeActionView::Run { program: "powerprofilesctl"@, arg: "get"@ }
    } else if k == 2 {
        ProbeActionView::Read { path: "/sys/firmware/acpi/platform_profile"@ }
    } else if k == 3 {
        ProbeActionView::Read { path: "/sys/devices/platform/hp-wmi/platform_profile"@ }
    } else if k == 4 {
        ProbeActionView::Read { path: "/sys/devices/platform/hp-wmi/platform-profile"@ }
    } else if k == 5 {
        ProbeActionView::Read { path: "/sys/devices/platform/hp-wmi/thermal_profile"@ }
    } else if k == 6 {
        ProbeActionView::Read { path: "/sys/devices/platform/hp-wmi/thermal-profile"@ }
    } else if k == 7 {
        ProbeActionView::Read { path: "/sys/devices/platform/hp-omen/thermal_profile"@ }
    } else {
        ProbeActionView::Read { path: "/sys/devices/platform/hp-omen/thermal-profile"@ }
    }
}

/// The profile that the outcome of probe `k` settles, if it settles one:
/// `system76-power` by the words its output contains, `powerprofilesctl`
/// by its normalized output, a platform profile file by its normalized
/// content, a thermal profile file by whether it holds `1`.
pub open spec fn verdict(k: int, ev: ProbeEvent) -> Option<Seq<char>> {
    if k == 0 {
        match ev {
            ProbeEvent::Ran(Some(o)) if o.success => {
                let out = lowercase_of(spec_trim(o.stdout@));
                if crate::text::spec_contains(out, "performance"@) {
                    Some("performance"@)
                } else if crate::text::spec_contains(out, "battery"@) {
                    Some("power-saver"@)
                } else if crate::text::spec_contains(out, "balanced"@) {
                    Some("balanced"@)
                } else {
                    None
                }
            },
            _ => None,
        }
    } else if k == 1 {
        match ev {
            ProbeEvent::Ran(Some(o)) if o.success => Some(
                normal_profile(lowercase_of(spec_trim(o.stdout@))),
            ),
            _ => None,
        }
    } else if 2 <= k <= 4 {
        match ev {
            ProbeEvent::ReadDone(Ok(c)) => Some(normal_profile(spec_trim(c@))),
            _ => None,
        }
    } else {
        match ev {
            ProbeEvent::ReadDone(Ok(c)) => if spec_trim(c@) == "1"@ {
                Some("performance"@)
            } else {
                Some("balanced"@)
            },
            _ => None,
        }
    }
}

/// Detection of the active power profile: when no custom power manager is
/// installed, `system76-power` and then `powerprofilesctl` are asked; then
/// the platform profile files and the thermal profile files are read in
/// turn. The first probe that settles a profile decides; `balanced` when
/// none does.
#[derive(Debug)]
pub struct ProfileDetection {
    custom: bool,
    started: bool,
    stage: u8,
    outcome: Option<String>,
}

impl ProfileDetection {
    /// The detected profile, once detection is complete.
    pub closed spec fn result(&self) -> Option<Seq<char>> {
        crate::cpu_energy::opt_view(self.outcome)
    }

    /// Whether detection is complete.
    pub closed spec fn is_finished(&self) -> bool {
        self.outcome is Some
    }

    /// Whether a custom power manager is installed.
    pub closed spec fn custom_spec(&self) -> bool {
        self.custom
    }

    /// Whether the first step was taken.
    pub closed spec fn started_spec(&self) -> bool {
        self.started
    }

    /// The invariant of a detection.
    pub closed spec fn wf(&self) -> bool {
        &&& self.stage <= 8
        &&& self.started && self.outcome is None ==> (self.custom ==> self.stage >= 2)
    }

    /// Whether `ev` answers the step that was last requested.
    pub closed spec fn accepts(&self, ev: ProbeEvent) -> bool {
        if self.outcome is Some {
            true
        } else if !self.started {
            ev is Start
        } else if self.stage <= 1 {
            ev is Ran
        } else {
            ev is ReadDone
        }
    }

    /// One step of detection.
    pub closed spec fn step_spec(self, ev: ProbeEvent, new: ProfileDetection, a: ProbeActionView) -> bool {
        &&& new.custom == self.custom
        &&& if self.outcome is Some {
            new == self && a == ProbeActionView::Done
        } else if !self.started {
            let k: int = if self.custom {
                2
            } else {
                0
            };
            new.started && new.outcome is None && new.stage == k && a == probe(k)
        } else {
            match verdict(self.stage as int, ev) {
                Some(p) => new.result() == Some(p) && a == ProbeActionView::Done,
                None => if self.stage == 8 {
                    new.result() == Some("balanced"@) && a == ProbeActionView::Done
                } else {
                    new.started && new.outcome is None && new.stage == self.stage + 1 && a == probe(
                        self.stage + 1,
                    )
                },
            }
        }
    }

    /// A detection about to begin; `custom` tells whether a custom power
    /// manager (TLP or auto-cpufreq) is installed.
    pub fn new(custom: bool) -> (r: ProfileDetection)
        ensures
            r.wf(),
            !r.is_finished(),
            r.custom_spec() == custom,
            !r.started_spec(),
    {
        ProfileDetection { custom, started: false, stage: 0, outcome: None }
    }

    /// Whether detection is complete.
    pub fn finished(&self) -> (r: bool)
        ensures
            r == self.is_finished(),
    {
        self.outcome.is_some()
    }

    /// The detected profile, once detection is complete.
    pub fn outcome(self) -> (r: Option<String>)
        ensures
            crate::cpu_energy::opt_view(r) == self.result(),
    {
        self.outcome
    }

    fn action(k: u8) -> (a: ProbeAction)
        requires
            k <= 8,
        ensures
            probe_action_view(a) == probe(k as int),
    {
        if k == 0 {
            ProbeAction::Run { program: owned("system76-power"), arg: owned("profile") }
        } else if k == 1 {
            ProbeAction::Run { program: owned("powerprofilesctl"), arg: owned("get") }
        } else if k == 2 {
            ProbeAction::Read { path: owned("/sys/firmware/acpi/platform_profile") }
        } else if k == 3 {
            ProbeAction::Read { path: owned("/sys/devices/platform/hp-wmi/platform_profile") }
        } else if k == 4 {
            ProbeAction::Read { path: owned("/sys/devices/platform/hp-wmi/platform-profile") }
        } else if k == 5 {
            ProbeAction::Read { path: owned("/sys/devices/platform/hp-wmi/thermal_profile") }
        } else if k == 6 {
            ProbeAction::Read { path: owned("/sys/devices/platform/hp-wmi/thermal-profile") }
        } else if k == 7 {
            ProbeAction::Read { path: owned("/sys/devices/platform/hp-omen/thermal_profile") }
        } else {
            ProbeAction::Read { path: owned("/sys/devices/platform/hp-omen/thermal-profile") }
        }
    }

    fn judge(k: u8, ev: &ProbeEvent) -> (r: Option<&'static str>)
        ensures
            match r {
                Some(p) => verdict(k as int, *ev) == Some(p@),
                None => verdict(k as int, *ev) is None,
            },
    {
        if k == 0 {
            match ev {
                ProbeEvent::Ran(Some(o)) => {
                    if !o.success {
                        return None;
                    }
                    let t = trim(o.stdout.as_str());
                    let out = to_lowercase(t.as_str());
                    if crate::text::contains(out.as_str(), "performance") {
                        Some("performance")
                    } else if crate::text::contains(out.as_str(), "battery") {
                        Some("power-saver")
                    } else if crate::text::contains(out.as_str(), "balanced") {
                        Some("balanced")
                    } else {
                        None
                    }
                },
                _ => None,
            }
        } else if k == 1 {
            match ev {
                ProbeEvent::Ran(Some(o)) => {
                    if !o.success {
                        return None;
                    }
                    let t = trim(o.stdout.as_str());
                    let out = to_lowercase(t.as_str());
                    Some(normalize_profile(out.as_str()))
                },
                _ => None,
            }
        } else if k <= 4 {
            match ev {
                ProbeEvent::ReadDone(Ok(c)) => {
                    let t = trim(c.as_str());
                    Some(normalize_profile(t.as_str()))
                },
                _ => None,
            }
        } else {
            match ev {
                ProbeEvent::ReadDone(Ok(c)) => {
                    let t = trim(c.as_str());
                    if str_eq(t.as_str(), "1") {
                        Some("performance")
                    } else {
                        Some("balanced")
                    }
                },
                _ => None,
            }
        }
    }

    /// Advance detection on what the last requested step showed.
    pub fn step(&mut self, ev: ProbeEvent) -> (a: ProbeAction)
        requires
            old(self).wf(),
            old(self).accepts(ev),
        ensures
            old(self).step_spec(ev, *final(self), probe_action_view(a)),
            final(self).wf(),
    {
        if self.outcome.is_some() {
            return ProbeAction::Done;
        }
        if !self.started {
            self.started = true;
            self.stage = if self.custom {
                2
            } else {
                0
            };
            return ProfileDetection::action(self.stage);
        }
        match ProfileDetection::judge(self.stage, &ev) {
            Some(p) => {
                self.outcome = Some(owned(p));
                ProbeAction::Done
            },
            None => {
                if self.stage == 8 {
                    self.outcome = Some(owned("balanced"));
                    ProbeAction::Done
                } else {
                    self.stage = self.stage + 1;
                    ProfileDetection::action(self.stage)
                }
            },
        }
    }
}

/// The power service: its saved settings, the game-profile monitor's
/// memory, and the engine that holds the authoritative power mode.
#[derive(Debug)]
pub struct PowerService {
    pub config: PowerConfig,
    pub app_state: AppState,
    pub engine: UnifiedPowerEngine,
}

impl PowerService {
    /// The engine.
    pub closed spec fn engine_spec(&self) -> UnifiedPowerEngine {
        self.engine
    }

    /// A service around an engine and the saved settings; the saved profile
    /// follows the engine's mode when it has one, and no game is active.
    pub fn with_engine(engine: UnifiedPowerEngine, config: PowerConfig) -> (r: PowerService)
        ensures
            r.engine_spec() == engine,
            r.config.power_profile@ == match engine.mode_spec() {
                Some(m) => profile_of(m),
                None => config.power_profile@,
            },
            r.config.app_profiles == config.app_profiles,
            r.config.app_profiles_enabled == config.app_profiles_enabled,
            r.config.undervolt_mv == config.undervolt_mv,
            r.config.tcc_offset == config.tcc_offset,
            r.config.pl1_w == config.pl1_w,
            r.config.pl2_w == config.pl2_w,
            r.config.pl_enabled == config.pl_enabled,
            r.config.gpu_w == config.gpu_w,
            r.app_state.active_app is None,
            r.app_state.pre_app_state is None,
    {
        let mut config = config;
        config.sync_with_mode(engine.current_mode());
        PowerService { config, app_state: AppState::new(), engine }
    }

    /// The engine.
    pub fn engine(&self) -> (r: &UnifiedPowerEngine)
        ensures
            *r == self.engine_spec(),
    {
        &self.engine
    }

    /// Maps legacy profile strings and power mode names to a power mode,
    /// after trimming and lowercasing.
    pub fn parse_power_mode(s: &str) -> (r: Option<PowerMode>)
        ensures
            r == legacy_mode(s@),
    {
        legacy_power_mode(s)
    }

    /// The first decision of `SetPowerMode`: the mode to apply, or, for a
    /// text that names no mode, the reply `FAIL: unrecognized mode '…'`.
    pub fn begin_set_power_mode(mode: &str) -> (r: Result<PowerMode, String>)
        ensures
            match legacy_mode(mode@) {
                Some(m) => r == Ok::<PowerMode, String>(m),
                None => r matches Err(t) && t@ == "FAIL: unrecognized mode '"@ + mode@ + "'"@,
            },
    {
        match legacy_power_mode(mode) {
            Some(m) => Ok(m),
            None => Err(unrecognized_mode_reply(mode)),
        }
    }

    /// The first decision of `SetPowerProfile`: the mode to apply, or, for a
    /// text that names no mode, the reply `FAIL`.
    pub fn begin_set_power_profile(profile: &str) -> (r: Result<PowerMode, &'static str>)
        ensures
            match legacy_mode(profile@) {
                Some(m) => r == Ok::<PowerMode, &'static str>(m),
                None => r matches Err(t) && t@ == "FAIL"@,
            },
    {
        proof {
            reveal_strlit("FAIL");
        }
        match legacy_power_mode(profile) {
            Some(m) => Ok(m),
            None => Err("FAIL"),
        }
    }

    /// The reply to `GetPowerMode`.
    pub fn get_power_mode(&self) -> (r: &'static str)
        ensures
            r@ == match self.engine_spec().mode_spec() {
                Some(m) => mode_name(m),
                None => "unknown"@,
            },
    {
        power_mode_reply(self.engine.current_mode())
    }

    /// Commit a finished mode transition and give the reply to
    /// `SetPowerMode`: on success the mode becomes authoritative and its
    /// profile name is saved, and the reply is `OK`; on failure nothing
    /// changes and the reply is `FAIL: ` and the error's message.
    pub fn finish_set_power_mode(&mut self, o: ModeOutcome) -> (r: String)
        ensures
            final(self).engine_spec().mode_spec() == if o.result_spec() is Ok {
                Some(o.mode_spec())
            } else {
                old(self).engine_spec().mode_spec()
            },
            final(self).engine_spec().cpu_spec() == old(self).engine_spec().cpu_spec(),
            final(self).engine_spec().platform_spec() == old(self).engine_spec().platform_spec(),
            final(self).engine_spec().timeout_spec() == old(self).engine_spec().timeout_spec(),
            final(self).engine_spec().wf() == old(self).engine_spec().wf(),
            final(self).app_state == old(self).app_state,
            match o.result_spec() {
                Ok(()) => r@ == "OK"@ && final(self).config.power_profile@ == profile_of(
                    o.mode_spec(),
                ),
                Err(e) => r@ == "FAIL: "@ + crate::power_engine::engine_error_message(e)
                    && final(self).config == old(self).config,
            },
    {
        let mode = o.mode();
        let res = self.engine.complete(o);
        let reply = set_power_mode_reply(&res);
        if res.is_ok() {
            self.config.power_profile = owned(mode_profile_name(mode));
        }
        reply
    }

    /// Commit a finished transition started by the legacy `SetPowerProfile`:
    /// on success the mode's profile name is saved and returned (for the
    /// GPU power sync) with the reply `OK`; on failure nothing changes and
    /// the reply is `FAIL`.
    pub fn finish_set_power_profile(&mut self, o: ModeOutcome) -> (r: (&'static str, Option<String>))
        ensures
            final(self).engine_spec().mode_spec() == if o.result_spec() is Ok {
                Some(o.mode_spec())
            } else {
                old(self).engine_spec().mode_spec()
            },
            final(self).engine_spec().cpu_spec() == old(self).engine_spec().cpu_spec(),
            final(self).engine_spec().platform_spec() == old(self).engine_spec().platform_spec(),
            final(self).engine_spec().timeout_spec() == old(self).engine_spec().timeout_spec(),
            final(self).engine_spec().wf() == old(self).engine_spec().wf(),
            final(self).app_state == old(self).app_state,
            match o.result_spec() {
                Ok(()) => r.0@ == "OK"@ && final(self).config.power_profile@ == profile_of(
                    o.mode_spec(),
                ) && (r.1 matches Some(p) && p@ == profile_of(o.mode_spec())),
                Err(_) => r.0@ == "FAIL"@ && r.1 is None && final(self).config == old(self).config,
            },
    {
        let mode = o.mode();
        let res = self.engine.complete(o);
        if res.is_ok() {
            let name = owned(mode_profile_name(mode));
            self.config.power_profile = owned(mode_profile_name(mode));
            ("OK", Some(name))
        } else {
            ("FAIL", None)
        }
    }
}

} // verus!

verus! {

impl ProfileDetection {
    /// It has a result exactly when it is finished.
    pub proof fn lemma_result_when_finished(self)
        ensures
            self.is_finished() <==> self.result() is Some,
    {
    }

    /// Once finished, a step leaves it as it is and asks for nothing more.
    pub proof fn lemma_finished_stays(self, ev: ProbeEvent, new: ProfileDetection, a: ProbeActionView)
        requires
            self.is_finished(),
            self.step_spec(ev, new, a),
        ensures
            new == self,
            a == ProbeActionView::Done,
    {
    }
}

} // verus!

verus! {

/// Law: every request with PL1 in 1..=200 W and PL2 in 1..=250 W is
/// accepted; PL1 is kept and PL2 becomes the larger of the two. Any other
/// request is refused.
pub proof fn lemma_limits_accepted(pl1: i32, pl2: i32)
    ensures
        (1 <= pl1 <= 200 && 1 <= pl2 <= 250) ==> (limits_of(pl1, pl2) matches Some((a, b)) && a == pl1
            && b >= pl1 && b >= pl2 && (b == pl1 || b == pl2)),
        !(1 <= pl1 <= 200 && 1 <= pl2 <= 250) ==> limits_of(pl1, pl2) is None,
{
}

} // verus!
