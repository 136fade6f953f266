//! Fan control through the kernel hwmon PWM interface: percentage and duty
//! conversions, the state of the fan service, and the verified writes of a
//! fan mode and of a manual speed.

use vstd::prelude::*;
use crate::text::{
    append, concat, decimal, is_prefix, owned, parse_i64, parse_unsigned, signed_decimal,
    spec_decimal, spec_parse_signed, spec_parse_unsigned, spec_signed_decimal, spec_trim,
    starts_with, str_eq, trim,
};

verus! {

/// The message for a fan percentage outside 1..=100.
pub open spec fn percentage_error(pct: u32) -> Seq<char> {
    if pct == 0 {
        "Fan percentage 0% is not allowed (zero-RPM / fan-stop override is prohibited for hardware safety)"@
    } else {
        "Fan percentage "@ + spec_decimal(pct as nat)
            + "% is out of range (must be between 1 and 100)"@
    }
}

/// The PWM duty (0-255) for a percentage, clamped to 100: the nearest
/// integer to pct * 255 / 100, halves rounded up.
pub open spec fn duty_of(pct: u32) -> u32 {
    let p = if pct > 100 {
        100
    } else {
        pct
    };
    ((p * 255 + 50) / 100) as u32
}

/// The percentage (0-100) for a PWM duty, clamped to 255: the nearest
/// integer to pwm * 100 / 255 (a half never occurs).
pub open spec fn pct_of(pwm: u32) -> u32 {
    let w = if pwm > 255 {
        255
    } else {
        pwm
    };
    ((w * 100 + 127) / 255) as u32
}

/// The fan service: the state of the fans, and the conversions and checks
/// that its operations share.
#[derive(Debug)]
pub struct FanService {
    pub state: FanState,
}

impl FanService {
    /// Validate a fan percentage: 1% to 100%; zero (a fan stop) is refused.
    pub fn validate_percentage(pct: u32) -> (r: Result<(), String>)
        ensures
            (1 <= pct <= 100) ==> r is Ok,
            !(1 <= pct <= 100) ==> (r matches Err(m) && m@ == percentage_error(pct)),
    {
        if pct == 0 {
            return Err(
                owned(
                    "Fan percentage 0% is not allowed (zero-RPM / fan-stop override is prohibited for hardware safety)",
                ),
            );
        }
        if pct > 100 {
            let d = decimal(pct as u64);
            let mut m = concat("Fan percentage ", d.as_str());
            append(&mut m, "% is out of range (must be between 1 and 100)");
            return Err(m);
        }
        Ok(())
    }

    /// Convert a percentage (1-100) to a PWM duty cycle value (0-255).
    pub fn pct_to_pwm(pct: u32) -> (r: u32)
        ensures
            r == duty_of(pct),
    {
        let p = if pct > 100 {
            100
        } else {
            pct
        };
        (p * 255 + 50) / 100
    }

    /// Convert a PWM duty cycle value (0-255) to a percentage (0-100).
    pub fn pwm_to_pct(pwm: u32) -> (r: u32)
        ensures
            r == pct_of(pwm),
    {
        let w = if pwm > 255 {
            255
        } else {
            pwm
        };
        (w * 100 + 127) / 255
    }
}

/// Law: the duty of a percentage is within 0..=255 and is the nearest duty
/// to pct * 255 / 100 (off by at most half a step, halves rounded up).
pub proof fn lemma_duty_rounds(pct: u32)
    requires
        pct <= 100,
    ensures
        duty_of(pct) <= 255,
        -50 < 100 * (duty_of(pct) as int) - 255 * (pct as int) <= 50,
{
    let d = duty_of(pct);
    assert(d == (pct * 255 + 50) / 100);
    assert(100 * (d as int) <= pct * 255 + 50 < 100 * (d as int) + 100) by (nonlinear_arith)
        requires
            d == (pct * 255 + 50) / 100,
    ;
}

/// Law: the percentage of a duty is within 0..=100 and is the nearest
/// percentage to pwm * 100 / 255.
pub proof fn lemma_pct_rounds(pwm: u32)
    requires
        pwm <= 255,
    ensures
        pct_of(pwm) <= 100,
        -255 < 2 * (255 * (pct_of(pwm) as int) - 100 * (pwm as int)) < 255,
{
    let q = pct_of(pwm);
    assert(255 * (q as int) <= pwm * 100 + 127 < 255 * (q as int) + 255) by (nonlinear_arith)
        requires
            q == (pwm * 100 + 127) / 255,
    ;
}

/// Law: converting a percentage to a duty and back gives the percentage.
pub proof fn lemma_pct_duty_round_trip(pct: u32)
    requires
        pct <= 100,
    ensures
        pct_of(duty_of(pct)) == pct,
{
    lemma_duty_rounds(pct);
    let d = duty_of(pct);
    let q = pct_of(d);
    lemma_pct_rounds(d);
    assert(q == pct) by (nonlinear_arith)
        requires
            -50 < 100 * (d as int) - 255 * (pct as int) <= 50,
            -255 < 2 * (255 * (q as int) - 100 * (d as int)) < 255,
            pct <= 100,
    ;
}

/// What reading an integer sysfs file gives: its trimmed content as an
/// `i64`, else the default (also when the read failed).
pub open spec fn int_reading(read: Result<String, String>, default: i64) -> i64 {
    match read {
        Ok(c) => match spec_parse_signed(spec_trim(c@)) {
            Some(v) => if i64::MIN <= v <= i64::MAX {
                v as i64
            } else {
                default
            },
            None => default,
        },
        Err(_) => default,
    }
}

/// What reading an integer sysfs file gives.
pub fn read_int(read: &Result<String, String>, default: i64) -> (r: i64)
    ensures
        r == int_reading(*read, default),
{
    match read {
        Ok(c) => {
            let t = trim(c.as_str());
            match parse_i64(t.as_str()) {
                Some(v) => v,
                None => default,
            }
        },
        Err(_) => default,
    }
}

/// The fan mode that a `pwm1_enable` value means: 0 full speed, 1 manual,
/// anything else automatic.
pub open spec fn mode_of_enable(v: i64) -> Seq<char> {
    if v == 0 {
        "max"@
    } else if v == 1 {
        "manual"@
    } else {
        "auto"@
    }
}

/// The fan mode that a `pwm1_enable` value means.
pub fn mode_from_enable(v: i64) -> (r: &'static str)
    ensures
        r@ == mode_of_enable(v),
{
    if v == 0 {
        "max"
    } else if v == 1 {
        "manual"
    } else {
        "auto"
    }
}

/// The maximum speed used for a fan, from its `fan<N>_max` reading taken
/// as a `u32`: readings below 4000 RPM are replaced by the 6000 RPM safe limit.
pub open spec fn max_speed_of(read: i64) -> u32 {
    let v = read as u32;
    if v < 4000 {
        6000
    } else {
        v
    }
}

/// The maximum speed used for a fan.
pub fn effective_max_speed(read: i64) -> (r: u32)
    ensures
        r == max_speed_of(read),
{
    let v = read as u32;
    if v < 4000 {
        6000
    } else {
        v
    }
}

/// Law: the maximum speed used for a fan is never below 4000 RPM.
pub proof fn lemma_max_speed_floor(read: i64)
    ensures
        max_speed_of(read) >= 4000,
{
}

/// The effective speed shown in the fan status: 100% at full speed, the
/// manual target (else the duty's percentage) in manual mode, the duty's
/// percentage otherwise.
pub open spec fn shown_percentage(enable: u32, pwm: u32, manual: Option<u32>) -> u32 {
    if enable == 0 {
        100
    } else if enable == 1 {
        match manual {
            Some(p) => p,
            None => pct_of(pwm),
        }
    } else {
        pct_of(pwm)
    }
}

/// The effective speed shown in the fan status.
pub fn status_percentage(enable: u32, pwm: u32, manual: Option<u32>) -> (r: u32)
    ensures
        r == shown_percentage(enable, pwm, manual),
{
    if enable == 0 {
        100
    } else if enable == 1 {
        match manual {
            Some(p) => p,
            None => FanService::pwm_to_pct(pwm),
        }
    } else {
        FanService::pwm_to_pct(pwm)
    }
}

/// Whether an hwmon driver name is HP's.
pub open spec fn is_hp_hwmon(name: Seq<char>) -> bool {
    name == "hp"@ || name == "hp-omen"@ || name == "hp_wmi"@
}

/// Whether an hwmon driver name (as read, before trimming) is HP's.
pub fn hp_hwmon_name(read: &str) -> (r: bool)
    ensures
        r == is_hp_hwmon(spec_trim(read@)),
{
    let t = trim(read);
    str_eq(t.as_str(), "hp") || str_eq(t.as_str(), "hp-omen") || str_eq(t.as_str(), "hp_wmi")
}

/// Whether `s` ends with `p`.
pub open spec fn is_suffix(p: Seq<char>, s: Seq<char>) -> bool {
    p.len() <= s.len() && s.subrange(s.len() - p.len(), s.len() as int) == p
}

/// The fan number that an hwmon file name `fan<N>_input` gives.
pub open spec fn fan_number_of(name: Seq<char>) -> Option<u32> {
    if is_prefix("fan"@, name) && is_suffix("_input"@, name) && name.len() >= 9 {
        match spec_parse_unsigned(name.subrange(3, name.len() - 6)) {
            Some(n) => if n <= u32::MAX {
                Some(n as u32)
            } else {
                None
            },
            None => None,
        }
    } else {
        None
    }
}

/// The fan number that an hwmon file name `fan<N>_input` gives.
pub fn fan_number(name: &str) -> (r: Option<u32>)
    ensures
        r == fan_number_of(name@),
{
    proof {
        reveal_strlit("fan");
        reveal_strlit("_input");
    }
    let v = crate::text::chars_of(name);
    let n = v.len();
    if !starts_with(name, "fan") || n < 9 {
        return None;
    }
    if !(v[n - 6] == '_' && v[n - 5] == 'i' && v[n - 4] == 'n' && v[n - 3] == 'p' && v[n - 2] == 'u'
        && v[n - 1] == 't') {
        assert(!is_suffix("_input"@, name@)) by {
            if is_suffix("_input"@, name@) {
                assert(name@.subrange(n - 6, n as int)[0] == name@[n - 6]);
                assert(name@.subrange(n - 6, n as int)[1] == name@[n - 5]);
                assert(name@.subrange(n - 6, n as int)[2] == name@[n - 4]);
                assert(name@.subrange(n - 6, n as int)[3] == name@[n - 3]);
                assert(name@.subrange(n - 6, n as int)[4] == name@[n - 2]);
                assert(name@.subrange(n - 6, n as int)[5] == name@[n - 1]);
            }
        }
        return None;
    }
    assert(name@.subrange(n - 6, n as int) =~= "_input"@);
    let mid = crate::text::string_of(&v, 3, n - 6);
    match parse_unsigned(mid.as_str(), u32::MAX as u64) {
        Some(k) => Some(k as u32),
        None => None,
    }
}

} // verus!

verus! {

broadcast use vstd::std_specs::hash::group_hash_axioms;

/// The largest value of a map; 6000 when it is empty.
pub open spec fn is_max_speed(m: Map<u32, u32>, r: u32) -> bool {
    &&& m.dom().len() == 0 ==> r == 6000
    &&& m.dom().len() > 0 ==> (exists|k: u32| #[trigger] m.contains_key(k) && m[k] == r)
    &&& m.dom().len() > 0 ==> forall|k: u32| #[trigger] m.contains_key(k) ==> m[k] <= r
}

/// The largest maximum speed of any fan, or 6000 RPM when none is known.
pub fn top_max_speed(m: &std::collections::HashMap<u32, u32>) -> (r: u32)
    ensures
        is_max_speed(m@, r),
{
    let mut best: Option<u32> = None;
    let ghost mut seen: Seq<(u32, u32)> = seq![];
    for kv in it: m.iter()
        invariant
            it.seq().len() == m@.dom().len(),
            forall|i: int| 0 <= i < it.seq().len() ==> m@.contains_key(*it.seq()[i].0) && m@[*it.seq()[i].0] == *it.seq()[i].1,
            forall|k: u32| #[trigger] m@.contains_key(k) ==> it.seq().contains((&k, &m@[k])),
            best is None <==> it.index() == 0,
            best matches Some(b) ==> (exists|i: int| 0 <= i < it.index() && *it.seq()[i].1 == b),
            best matches Some(b) ==> (forall|i: int| 0 <= i < it.index() ==> *it.seq()[i].1 <= b),
    {
        let (_k, v) = kv;
        best = match best {
            Some(b) => if *v > b {
                Some(*v)
            } else {
                Some(b)
            },
            None => Some(*v),
        };
    }
    match best {
        Some(b) => b,
        None => 6000,
    }
}

/// The target speed that a duty gives a fan of maximum speed `max`: the
/// nearest integer to max * pwm / 255 (never a tie), at most `u32::MAX`.
pub open spec fn pwm_target_of(max: u32, pwm: u32) -> u32 {
    let v = (2 * max * pwm + 255) / 510;
    if v > u32::MAX {
        u32::MAX
    } else {
        v as u32
    }
}

/// The target speed reported for fan `fan`: the target last set for it;
/// else, with an hwmon device, what reading its `fan<N>_target` file gave
/// when that file exists (`target_read`), or the target that the duty read
/// from `pwm1` gives at the fan's maximum speed (6000 RPM when unknown);
/// else zero.
pub open spec fn target_speed_of(
    s: FanState,
    fan: u32,
    target_read: Option<Result<String, String>>,
    pwm_read: Result<String, String>,
) -> u32 {
    if s.last_targets@.contains_key(fan) {
        s.last_targets@[fan]
    } else if s.hwmon_path is Some {
        match target_read {
            Some(r) => int_reading(r, 0) as u32,
            None => pwm_target_of(
                if s.max_speeds@.contains_key(fan) {
                    s.max_speeds@[fan]
                } else {
                    6000
                },
                int_reading(pwm_read, 0) as u32,
            ),
        }
    } else {
        0
    }
}

impl FanState {
    /// The target speed reported for a fan (see `target_speed_of`).
    pub fn target_speed(&self, fan: u32, target_read: Option<Result<String, String>>, pwm_read: Result<String, String>) -> (r: u32)
        ensures
            r == target_speed_of(*self, fan, target_read, pwm_read),
    {
        match self.last_targets.get(&fan) {
            Some(t) => {
                return *t;
            },
            None => {},
        }
        if self.hwmon_path.is_none() {
            return 0;
        }
        match &target_read {
            Some(r) => {
                return read_int(r, 0) as u32;
            },
            None => {},
        }
        let pwm = read_int(&pwm_read, 0) as u32;
        let max: u32 = match self.max_speeds.get(&fan) {
            Some(m) => *m,
            None => 6000,
        };
        let m128 = max as u128;
        let p128 = pwm as u128;
        assert(m128 * p128 <= 0xffff_ffffu128 * 0xffff_ffffu128) by (nonlinear_arith)
            requires
                m128 <= 0xffff_ffffu128,
                p128 <= 0xffff_ffffu128,
        ;
        let prod = m128 * p128;
        assert(2 * prod == 2 * max * pwm) by (nonlinear_arith)
            requires
                prod == m128 * p128,
                m128 == max,
                p128 == pwm,
        ;
        let v: u128 = (2 * prod + 255) / 510;
        if v > u32::MAX as u128 {
            u32::MAX
        } else {
            v as u32
        }
    }
}

} // verus!

use crate::sysfs::{SysfsAction, SysfsActionView as A, SysfsEvent as E};

verus! {

/// What `format!("{:?}", Path::new(p))` gives for a path: the path quoted,
/// with the escapes of Rust's `Debug` for strings.
pub uninterp spec fn path_debug_text(p: Seq<char>) -> Seq<char>;

/// Calls `<Path as Debug>::fmt` through `format!`; what it gives is named
/// by `path_debug_text`, a function of the path alone.
#[verifier::external_body]
fn debug_path(p: &str) -> (r: String)
    ensures
        r@ == path_debug_text(p@),
{
    format!("{:?}", std::path::Path::new(p))
}

/// What a successful fan write changes in the service's state.
#[derive(Debug, Clone, Copy, PartialEq, Eq, Structural)]
pub enum FanEffect {
    /// Automatic control: no manual target, no duty written.
    Auto,
    /// Full speed: no manual target, duty 255.
    Max,
    /// Manual mode with this target percentage and duty.
    Manual { pct: u32, duty: u32 },
    /// A manual speed with this percentage and duty; the fans' target speeds follow.
    Speed { pct: u32, duty: u32 },
}

/// The phase of a fan write.
#[derive(Debug, Clone, Copy, PartialEq, Eq, Structural)]
pub enum FanPhase {
    Start,
    ProbeEnable,
    ReadCurrent,
    ResetToAuto,
    Settle,
    WriteEnable,
    ReadBackEnable,
    WriteDuty,
    ReadBackDuty,
    Finished,
}

/// How long a fan write waits after returning from full speed to
/// automatic control, in milliseconds.
pub open spec fn settle_ms() -> u64 {
    50
}

/// A verified write of the fan mode (`speed` false) or of a manual fan
/// speed (`speed` true) through `pwm1_enable` and `pwm1`. Leaving full speed
/// for manual control passes through automatic control first.
#[derive(Debug)]
pub struct FanWrite {
    speed: bool,
    enable_path: String,
    pwm_path: String,
    enable_val: i64,
    pct: u32,
    phase: FanPhase,
    outcome: Option<Result<FanEffect, String>>,
}

/// The message for a failed write of `pwm1_enable`.
pub open spec fn enable_write_error(v: i64) -> Seq<char> {
    "Failed to write "@ + spec_signed_decimal(v as int) + " to pwm1_enable"@
}

/// The message for a `pwm1_enable` read back that differs from what was written.
pub open spec fn enable_verify_error(v: i64, got: i64) -> Seq<char> {
    "Verification failed for pwm1_enable: wrote "@ + spec_signed_decimal(v as int) + ", read back "@
        + spec_signed_decimal(got as int)
}

/// The message for a failed write of the duty.
pub open spec fn duty_write_error(duty: u32) -> Seq<char> {
    "Failed to write duty "@ + spec_decimal(duty as nat) + " to pwm1"@
}

impl FanWrite {
    pub closed spec fn result(&self) -> Option<Result<FanEffect, String>> {
        self.outcome
    }

    pub closed spec fn is_finished(&self) -> bool {
        self.phase == FanPhase::Finished
    }

    pub closed spec fn wf(&self) -> bool {
        &&& (self.phase == FanPhase::Finished <==> self.outcome is Some)
        &&& 0 <= self.enable_val <= 2
        &&& self.speed ==> self.enable_val == 1 && self.pct <= 100
    }

    pub closed spec fn accepts(&self, ev: crate::sysfs::SysfsEvent) -> bool {
        match self.phase {
            FanPhase::Start => ev is Start,
            FanPhase::ProbeEnable => ev is Probed,
            FanPhase::ReadCurrent | FanPhase::ReadBackEnable | FanPhase::ReadBackDuty => ev is ReadDone,
            FanPhase::ResetToAuto | FanPhase::WriteEnable | FanPhase::WriteDuty => ev is WriteDone,
            FanPhase::Settle => ev is Slept,
            FanPhase::Finished => true,
        }
    }

    /// The duty that this write sets in manual mode.
    pub closed spec fn duty(&self) -> u32 {
        duty_of(self.pct)
    }

    /// A write about to begin: of the `pwm1_enable` value `enable_val`
    /// (and, in manual mode, of the duty for `pct`) under `hwmon`.
    pub closed spec fn begins(&self, speed: bool, hwmon: Seq<char>, enable_val: i64, pct: u32) -> bool {
        &&& self.speed == speed
        &&& self.enable_path@ == crate::text::path_join(hwmon, "pwm1_enable"@)
        &&& self.pwm_path@ == crate::text::path_join(hwmon, "pwm1"@)
        &&& self.enable_val == enable_val
        &&& self.pct == pct
        &&& self.phase == FanPhase::Start
        &&& self.outcome is None
    }

    /// A write refused before touching anything, with `message`.
    pub closed spec fn refused(&self, message: Seq<char>) -> bool {
        &&& self.phase == FanPhase::Finished
        &&& self.outcome matches Some(Err(m)) && m@ == message
    }

    /// `new` ends with `r`.
    closed spec fn ends(self, new: FanWrite, r: Result<FanEffect, Seq<char>>, a: crate::sysfs::SysfsActionView) -> bool {
        &&& new.phase == FanPhase::Finished
        &&& a == crate::sysfs::SysfsActionView::Done
        &&& match r {
            Ok(e) => new.outcome == Some(Ok::<FanEffect, String>(e)),
            Err(m) => new.outcome matches Some(Err(s)) && s@ == m,
        }
    }

    /// The effect of a write that succeeded.
    pub closed spec fn effect(&self) -> FanEffect {
        if self.speed {
            FanEffect::Speed { pct: self.pct, duty: duty_of(self.pct) }
        } else if self.enable_val == 1 {
            FanEffect::Manual { pct: self.pct, duty: duty_of(self.pct) }
        } else if self.enable_val == 0 {
            FanEffect::Max
        } else {
            FanEffect::Auto
        }
    }

    /// One step of the write.
    pub closed spec fn step_spec(self, ev: crate::sysfs::SysfsEvent, new: FanWrite, a: crate::sysfs::SysfsActionView) -> bool {
        let enable = self.enable_path@;
        let pwm = self.pwm_path@;
        let duty_text = spec_decimal(duty_of(self.pct) as nat);
        let write_enable = A::Replace { path: enable, value: spec_signed_decimal(self.enable_val as int) };
        &&& new.speed == self.speed
        &&& new.enable_path == self.enable_path
        &&& new.pwm_path == self.pwm_path
        &&& new.enable_val == self.enable_val
        &&& new.pct == self.pct
        &&& match self.phase {
            FanPhase::Finished => new == self && a == A::Done,
            FanPhase::Start => if self.speed {
                new.phase == FanPhase::ReadCurrent && new.outcome is None && a == (A::Read { path: enable })
            } else {
                new.phase == FanPhase::ProbeEnable && new.outcome is None && a == (A::Probe { path: enable })
            },
            FanPhase::ProbeEnable => match ev {
                E::Probed(false) => self.ends(new, Err("pwm1_enable sysfs path "@ + path_debug_text(enable) + " does not exist"@), a),
                E::Probed(true) => if self.enable_val == 1 {
                    new.phase == FanPhase::ReadCurrent && new.outcome is None && a == (A::Read { path: enable })
                } else {
                    new.phase == FanPhase::WriteEnable && new.outcome is None && a == write_enable
                },
                _ => false,
            },
            FanPhase::ReadCurrent => match ev {
                E::ReadDone(r) => {
                    let cur = int_reading(r, 2);
                    if cur == 0 {
                        new.phase == FanPhase::ResetToAuto && new.outcome is None && a == (A::Replace { path: enable, value: "2"@ })
                    } else if self.speed && cur == 1 {
                        new.phase == FanPhase::WriteDuty && new.outcome is None && a == (A::Replace { path: pwm, value: duty_text })
                    } else {
                        new.phase == FanPhase::WriteEnable && new.outcome is None && a == write_enable
                    }
                },
                _ => false,
            },
            FanPhase::ResetToAuto => new.phase == FanPhase::Settle && new.outcome is None && a == (A::Sleep { ms: settle_ms() }),
            FanPhase::Settle => new.phase == FanPhase::WriteEnable && new.outcome is None && a == write_enable,
            FanPhase::WriteEnable => match ev {
                E::WriteDone(Err(_)) => self.ends(new, Err(enable_write_error(self.enable_val)), a),
                E::WriteDone(Ok(())) => new.phase == FanPhase::ReadBackEnable && new.outcome is None && a == (A::Read { path: enable }),
                _ => false,
            },
            FanPhase::ReadBackEnable => match ev {
                E::ReadDone(r) => {
                    let got = int_reading(r, -1i64);
                    if got != self.enable_val {
                        self.ends(new, Err(enable_verify_error(self.enable_val, got)), a)
                    } else if self.enable_val == 1 {
                        new.phase == FanPhase::WriteDuty && new.outcome is None && a == (A::Replace { path: pwm, value: duty_text })
                    } else {
                        self.ends(new, Ok(self.effect()), a)
                    }
                },
                _ => false,
            },
            FanPhase::WriteDuty => match ev {
                E::WriteDone(Err(_)) => self.ends(new, Err(duty_write_error(duty_of(self.pct))), a),
                E::WriteDone(Ok(())) => new.phase == FanPhase::ReadBackDuty && new.outcome is None && a == (A::Read { path: pwm }),
                _ => false,
            },
            FanPhase::ReadBackDuty => match ev {
                E::ReadDone(r) => if self.speed && int_reading(r, -1i64) < 0 {
                    self.ends(new, Err("Verification failed: pwm1 node unreadable after write"@), a)
                } else {
                    self.ends(new, Ok(self.effect()), a)
                },
                _ => false,
            },
        }
    }
}

} // verus!

verus! {

impl FanWrite {
    /// The outcome, once the write is finished.
    pub fn outcome(self) -> (r: Option<Result<FanEffect, String>>)
        ensures
            r == self.result(),
            self.wf() ==> (self.is_finished() <==> r is Some),
    {
        self.outcome
    }

    /// Whether the write is finished.
    pub fn finished(&self) -> (r: bool)
        ensures
            r == self.is_finished(),
    {
        self.phase == FanPhase::Finished
    }

    fn enable_text(&self) -> (r: String)
        ensures
            r@ == spec_signed_decimal(self.enable_val as int),
    {
        signed_decimal(self.enable_val)
    }

    fn end_err(&mut self, m: String) -> (a: SysfsAction)
        ensures
            final(self).phase == FanPhase::Finished,
            final(self).outcome == Some(Err::<FanEffect, String>(m)),
            a@ == A::Done,
            final(self).speed == old(self).speed,
            final(self).enable_path == old(self).enable_path,
            final(self).pwm_path == old(self).pwm_path,
            final(self).enable_val == old(self).enable_val,
            final(self).pct == old(self).pct,
    {
        self.phase = FanPhase::Finished;
        self.outcome = Some(Err(m));
        SysfsAction::Done
    }

    fn end_ok(&mut self) -> (a: SysfsAction)
        requires
            0 <= old(self).enable_val <= 2,
            old(self).speed ==> old(self).pct <= 100,
        ensures
            final(self).phase == FanPhase::Finished,
            final(self).outcome == Some(Ok::<FanEffect, String>(old(self).effect())),
            a@ == A::Done,
            final(self).speed == old(self).speed,
            final(self).enable_path == old(self).enable_path,
            final(self).pwm_path == old(self).pwm_path,
            final(self).enable_val == old(self).enable_val,
            final(self).pct == old(self).pct,
    {
        let duty = FanService::pct_to_pwm(self.pct);
        let e = if self.speed {
            FanEffect::Speed { pct: self.pct, duty }
        } else if self.enable_val == 1 {
            FanEffect::Manual { pct: self.pct, duty }
        } else if self.enable_val == 0 {
            FanEffect::Max
        } else {
            FanEffect::Auto
        };
        self.phase = FanPhase::Finished;
        self.outcome = Some(Ok(e));
        SysfsAction::Done
    }

    fn write_duty(&mut self) -> (a: SysfsAction)
        ensures
            a@ == (A::Replace { path: old(self).pwm_path@, value: spec_decimal(duty_of(old(self).pct) as nat) }),
            final(self).phase == FanPhase::WriteDuty,
            final(self).outcome is None,
            final(self).speed == old(self).speed,
            final(self).enable_path == old(self).enable_path,
            final(self).pwm_path == old(self).pwm_path,
            final(self).enable_val == old(self).enable_val,
            final(self).pct == old(self).pct,
    {
        let duty = FanService::pct_to_pwm(self.pct);
        self.phase = FanPhase::WriteDuty;
        self.outcome = None;
        SysfsAction::Replace { path: self.pwm_path.clone(), value: decimal(duty as u64) }
    }

    /// Advance the write on what the last requested step showed.
    pub fn step(&mut self, ev: E) -> (a: SysfsAction)
        requires
            old(self).wf(),
            old(self).accepts(ev),
        ensures
            old(self).step_spec(ev, *final(self), a@),
            final(self).wf(),
    {
        proof {
            reveal_strlit("2");
        }
        match self.phase {
            FanPhase::Finished => SysfsAction::Done,
            FanPhase::Start => {
                if self.speed {
                    self.phase = FanPhase::ReadCurrent;
                    SysfsAction::Read { path: self.enable_path.clone() }
                } else {
                    self.phase = FanPhase::ProbeEnable;
                    SysfsAction::Probe { path: self.enable_path.clone() }
                }
            },
            FanPhase::ProbeEnable => match ev {
                E::Probed(false) => {
                    let d = debug_path(self.enable_path.as_str());
                    let mut m = concat("pwm1_enable sysfs path ", d.as_str());
                    append(&mut m, " does not exist");
                    self.end_err(m)
                },
                E::Probed(true) => {
                    if self.enable_val == 1 {
                        self.phase = FanPhase::ReadCurrent;
                        SysfsAction::Read { path: self.enable_path.clone() }
                    } else {
                        self.phase = FanPhase::WriteEnable;
                        SysfsAction::Replace { path: self.enable_path.clone(), value: self.enable_text() }
                    }
                },
                _ => SysfsAction::Done,
            },
            FanPhase::ReadCurrent => match ev {
                E::ReadDone(r) => {
                    let cur = read_int(&r, 2);
                    if cur == 0 {
                        self.phase = FanPhase::ResetToAuto;
                        SysfsAction::Replace { path: self.enable_path.clone(), value: owned("2") }
                    } else if self.speed && cur == 1 {
                        self.write_duty()
                    } else {
                        self.phase = FanPhase::WriteEnable;
                        SysfsAction::Replace { path: self.enable_path.clone(), value: self.enable_text() }
                    }
                },
                _ => SysfsAction::Done,
            },
            FanPhase::ResetToAuto => {
                self.phase = FanPhase::Settle;
                SysfsAction::Sleep { ms: 50 }
            },
            FanPhase::Settle => {
                self.phase = FanPhase::WriteEnable;
                SysfsAction::Replace { path: self.enable_path.clone(), value: self.enable_text() }
            },
            FanPhase::WriteEnable => match ev {
                E::WriteDone(Err(_)) => {
                    let v = self.enable_text();
                    let mut m = concat("Failed to write ", v.as_str());
                    append(&mut m, " to pwm1_enable");
                    self.end_err(m)
                },
                E::WriteDone(Ok(())) => {
                    self.phase = FanPhase::ReadBackEnable;
                    SysfsAction::Read { path: self.enable_path.clone() }
                },
                _ => SysfsAction::Done,
            },
            FanPhase::ReadBackEnable => match ev {
                E::ReadDone(r) => {
                    let got = read_int(&r, -1);
                    if got != self.enable_val {
                        let v = self.enable_text();
                        let g = signed_decimal(got);
                        let mut m = concat("Verification failed for pwm1_enable: wrote ", v.as_str());
                        append(&mut m, ", read back ");
                        append(&mut m, g.as_str());
                        self.end_err(m)
                    } else if self.enable_val == 1 {
                        self.write_duty()
                    } else {
                        self.end_ok()
                    }
                },
                _ => SysfsAction::Done,
            },
            FanPhase::WriteDuty => match ev {
                E::WriteDone(Err(_)) => {
                    let d = decimal(FanService::pct_to_pwm(self.pct) as u64);
                    let mut m = concat("Failed to write duty ", d.as_str());
                    append(&mut m, " to pwm1");
                    self.end_err(m)
                },
                E::WriteDone(Ok(())) => {
                    self.phase = FanPhase::ReadBackDuty;
                    SysfsAction::Read { path: self.pwm_path.clone() }
                },
                _ => SysfsAction::Done,
            },
            FanPhase::ReadBackDuty => match ev {
                E::ReadDone(r) => {
                    if self.speed && read_int(&r, -1) < 0 {
                        self.end_err(owned("Verification failed: pwm1 node unreadable after write"))
                    } else {
                        self.end_ok()
                    }
                },
                _ => SysfsAction::Done,
            },
        }
    }
}

} // verus!

verus! {

/// The state of the fan service.
#[derive(Debug)]
pub struct FanState {
    /// The HP hwmon directory, if one was found.
    pub hwmon_path: Option<String>,
    /// The fan numbers found, in ascending order.
    pub found_fans: Vec<u32>,
    /// The maximum speed of each fan, in RPM.
    pub max_speeds: std::collections::HashMap<u32, u32>,
    /// Another hwmon's input file for each fan, where one exists.
    pub fallback_paths: std::collections::HashMap<u32, String>,
    pub fan_count: u32,
    /// The fan mode: `auto`, `manual` or `max`.
    pub mode: String,
    pub custom_curve_json: String,
    /// The target speed last set for each fan, in RPM.
    pub last_targets: std::collections::HashMap<u32, u32>,
    /// The manual speed percentage, in manual mode.
    pub manual_target_pct: Option<u32>,
    /// The PWM duty last written.
    pub last_written_duty: Option<u32>,
    /// When the duty was last written, in milliseconds of the caller's clock.
    pub last_written_duty_time: Option<u64>,
}

/// The `pwm1_enable` value that a fan mode name (lowercased) selects.
pub open spec fn enable_of_mode(mode: Seq<char>) -> Option<i64> {
    let l = crate::text::lowercase_of(mode);
    if l == "auto"@ {
        Some(2)
    } else if l == "manual"@ || l == "custom"@ {
        Some(1)
    } else if l == "max"@ {
        Some(0)
    } else {
        None
    }
}

/// The message for a fan mode name that selects no mode.
pub open spec fn unsupported_mode_error(mode: Seq<char>) -> Seq<char> {
    "Unsupported fan mode '"@ + mode + "'. Supported modes: auto, manual, max"@
}

/// The target speed of a fan at a percentage of its maximum speed: the
/// nearest integer to max * pct / 100, halves rounded up.
pub open spec fn target_rpm_of(max: u32, pct: u32) -> u32 {
    ((max * pct * 2 + 100) / 200) as u32
}

/// The target speed of a fan at a percentage of its maximum speed.
pub fn target_rpm(max: u32, pct: u32) -> (r: u32)
    requires
        pct <= 100,
    ensures
        r == target_rpm_of(max, pct),
{
    let m64 = max as u64;
    let p64 = pct as u64;
    assert(m64 * p64 <= 0xffff_ffff * 100) by (nonlinear_arith)
        requires
            p64 <= 100,
            m64 <= 0xffff_ffff,
    ;
    let prod = m64 * p64;
    let wide: u64 = prod * 2 + 100;
    assert(wide / 200 <= max) by (nonlinear_arith)
        requires
            wide == prod * 2 + 100,
            prod == max * pct,
            pct <= 100,
    ;
    (wide / 200) as u32
}

impl FanService {
    /// Begin setting the fan mode. Without an hwmon device, or for a mode
    /// name that selects no mode, the write is refused and touches nothing.
    /// Manual mode uses the manual target percentage, else 50%.
    pub fn set_mode_internal(state: &FanState, mode: &str) -> (w: FanWrite)
        ensures
            w.wf(),
            state.hwmon_path is None ==> w.refused("No HP hwmon device found"@),
            state.hwmon_path matches Some(h) ==> match enable_of_mode(mode@) {
                None => w.refused(unsupported_mode_error(mode@)),
                Some(v) => w.begins(
                    false,
                    h@,
                    v,
                    match state.manual_target_pct {
                        Some(p) => p,
                        None => 50,
                    },
                ),
            },
    {
        let pct = match state.manual_target_pct {
            Some(p) => p,
            None => 50,
        };
        match &state.hwmon_path {
            None => FanWrite {
                speed: false,
                enable_path: String::new(),
                pwm_path: String::new(),
                enable_val: 2,
                pct: 50,
                phase: FanPhase::Finished,
                outcome: Some(Err(owned("No HP hwmon device found"))),
            },
            Some(h) => {
                let l = crate::text::to_lowercase(mode);
                let v: i64 = if str_eq(l.as_str(), "auto") {
                    2
                } else if str_eq(l.as_str(), "manual") || str_eq(l.as_str(), "custom") {
                    1
                } else if str_eq(l.as_str(), "max") {
                    0
                } else {
                    let mut m = concat("Unsupported fan mode '", mode);
                    append(&mut m, "'. Supported modes: auto, manual, max");
                    return FanWrite {
                        speed: false,
                        enable_path: String::new(),
                        pwm_path: String::new(),
                        enable_val: 2,
                        pct: 50,
                        phase: FanPhase::Finished,
                        outcome: Some(Err(m)),
                    };
                };
                FanWrite {
                    speed: false,
                    enable_path: crate::text::join_path(h.as_str(), "pwm1_enable"),
                    pwm_path: crate::text::join_path(h.as_str(), "pwm1"),
                    enable_val: v,
                    pct,
                    phase: FanPhase::Start,
                    outcome: None,
                }
            },
        }
    }

    /// Begin setting a manual fan speed. A percentage outside 1..=100 is
    /// refused first, then a missing hwmon device; a refused write touches nothing.
    pub fn set_fan_speed_internal(state: &FanState, pct: u32) -> (w: FanWrite)
        ensures
            w.wf(),
            !(1 <= pct <= 100) ==> w.refused(percentage_error(pct)),
            (1 <= pct <= 100) && state.hwmon_path is None ==> w.refused("No HP hwmon device found"@),
            (1 <= pct <= 100) && state.hwmon_path is Some ==> w.begins(
                true,
                state.hwmon_path->0@,
                1,
                pct,
            ),
    {
        let refused = |m: String| -> (w: FanWrite)
            ensures
                w.wf(),
                w.refused(m@),
        {
            FanWrite {
                speed: true,
                enable_path: String::new(),
                pwm_path: String::new(),
                enable_val: 1,
                pct: 50,
                phase: FanPhase::Finished,
                outcome: Some(Err(m)),
            }
        };
        match FanService::validate_percentage(pct) {
            Err(m) => refused(m),
            Ok(()) => match &state.hwmon_path {
                None => refused(owned("No HP hwmon device found")),
                Some(h) => FanWrite {
                    speed: true,
                    enable_path: crate::text::join_path(h.as_str(), "pwm1_enable"),
                    pwm_path: crate::text::join_path(h.as_str(), "pwm1"),
                    enable_val: 1,
                    pct,
                    phase: FanPhase::Start,
                    outcome: None,
                },
            },
        }
    }

    /// Begin restoring automatic fan control, as on daemon shutdown.
    pub fn restore_auto_mode(&self) -> (w: FanWrite)
        ensures
            w.wf(),
            self.state.hwmon_path is None ==> w.refused("No HP hwmon device found"@),
            self.state.hwmon_path matches Some(h) ==> w.begins(
                false,
                h@,
                2,
                match self.state.manual_target_pct {
                    Some(p) => p,
                    None => 50,
                },
            ),
    {
        proof {
            reveal_strlit("auto");
        }
        let w = FanService::set_mode_internal(&self.state, "auto");
        proof {
            assert(crate::text::all_ascii("auto"@));
            assert(crate::text::lowercase_of("auto"@) =~= "auto"@);
        }
        w
    }
}

} // verus!

verus! {

/// The target speeds after every fan in `fans` is given `t`.
pub open spec fn targets_after(old: Map<u32, u32>, fans: Seq<u32>, t: u32) -> Map<u32, u32> {
    Map::new(
        |k: u32| old.contains_key(k) || fans.contains(k),
        |k: u32| if fans.contains(k) { t } else { old[k] },
    )
}

impl FanState {
    /// Record what a successful fan write changed; `now_ms` is the time of
    /// the write on the caller's clock.
    pub fn apply(&mut self, e: FanEffect, now_ms: u64)
        requires
            e matches FanEffect::Speed { pct, .. } ==> pct <= 100,
        ensures
            final(self).hwmon_path == old(self).hwmon_path,
            final(self).found_fans == old(self).found_fans,
            final(self).max_speeds == old(self).max_speeds,
            final(self).fallback_paths == old(self).fallback_paths,
            final(self).fan_count == old(self).fan_count,
            final(self).custom_curve_json == old(self).custom_curve_json,
            match e {
                FanEffect::Auto => {
                    &&& final(self).mode@ == "auto"@
                    &&& final(self).manual_target_pct is None
                    &&& final(self).last_written_duty is None
                    &&& final(self).last_written_duty_time == old(self).last_written_duty_time
                    &&& final(self).last_targets == old(self).last_targets
                },
                FanEffect::Max => {
                    &&& final(self).mode@ == "max"@
                    &&& final(self).manual_target_pct is None
                    &&& final(self).last_written_duty == Some(255u32)
                    &&& final(self).last_written_duty_time == old(self).last_written_duty_time
                    &&& final(self).last_targets == old(self).last_targets
                },
                FanEffect::Manual { pct, duty } => {
                    &&& final(self).mode@ == "manual"@
                    &&& final(self).manual_target_pct == Some(pct)
                    &&& final(self).last_written_duty == Some(duty)
                    &&& final(self).last_written_duty_time == Some(now_ms)
                    &&& final(self).last_targets == old(self).last_targets
                },
                FanEffect::Speed { pct, duty } => {
                    &&& final(self).mode@ == "manual"@
                    &&& final(self).manual_target_pct == Some(pct)
                    &&& final(self).last_written_duty == Some(duty)
                    &&& final(self).last_written_duty_time == Some(now_ms)
                    &&& exists|m: u32| #[trigger] is_max_speed(old(self).max_speeds@, m)
                        && final(self).last_targets@ == targets_after(
                        old(self).last_targets@,
                        old(self).found_fans@,
                        target_rpm_of(m, pct),
                    )
                },
            },
    {
        match e {
            FanEffect::Auto => {
                self.manual_target_pct = None;
                self.last_written_duty = None;
                self.mode = owned("auto");
            },
            FanEffect::Max => {
                self.manual_target_pct = None;
                self.last_written_duty = Some(255);
                self.mode = owned("max");
            },
            FanEffect::Manual { pct, duty } => {
                self.last_written_duty = Some(duty);
                self.last_written_duty_time = Some(now_ms);
                self.manual_target_pct = Some(pct);
                self.mode = owned("manual");
            },
            FanEffect::Speed { pct, duty } => {
                self.manual_target_pct = Some(pct);
                self.mode = owned("manual");
                self.last_written_duty = Some(duty);
                self.last_written_duty_time = Some(now_ms);
                let m = top_max_speed(&self.max_speeds);
                let t = target_rpm(m, pct);
                let ghost start = self.last_targets@;
                let ghost before = *self;
                let mut i: usize = 0;
                while i < self.found_fans.len()
                    invariant
                        i <= self.found_fans@.len(),
                        self.hwmon_path == before.hwmon_path,
                        self.found_fans == before.found_fans,
                        self.max_speeds == before.max_speeds,
                        self.fallback_paths == before.fallback_paths,
                        self.fan_count == before.fan_count,
                        self.custom_curve_json == before.custom_curve_json,
                        self.mode == before.mode,
                        self.manual_target_pct == before.manual_target_pct,
                        self.last_written_duty == before.last_written_duty,
                        self.last_written_duty_time == before.last_written_duty_time,
                        self.last_targets@ == targets_after(
                            start,
                            self.found_fans@.subrange(0, i as int),
                            t,
                        ),
                    decreases self.found_fans.len() - i,
                {
                    let fan = self.found_fans[i];
                    let ghost pre = self.found_fans@.subrange(0, i as int);
                    let ghost nxt = self.found_fans@.subrange(0, i + 1);
                    self.last_targets.insert(fan, t);
                    assert(nxt =~= pre.push(fan));
                    assert forall|k: u32| nxt.contains(k) <==> (pre.contains(k) || k == fan) by {
                        if nxt.contains(k) {
                            let j = choose|j: int| 0 <= j < nxt.len() && nxt[j] == k;
                            if j < pre.len() {
                                assert(pre[j] == k);
                            }
                        }
                        if pre.contains(k) {
                            let j = choose|j: int| 0 <= j < pre.len() && pre[j] == k;
                            assert(nxt[j] == k);
                        }
                        if k == fan {
                            assert(nxt[i as int] == k);
                        }
                    }
                    assert(self.last_targets@ =~= targets_after(start, nxt, t));
                    i = i + 1;
                }
                assert(self.found_fans@.subrange(0, self.found_fans@.len() as int) =~= self.found_fans@);
            },
        }
    }
}

} // verus!

verus! {

/// The fan numbers that the file names of an hwmon directory give, in
/// listing order.
pub open spec fn listed_fans(names: Seq<String>) -> Seq<u32>
    decreases names.len(),
{
    if names.len() == 0 {
        seq![]
    } else {
        let rest = listed_fans(names.drop_last());
        match fan_number_of(names.last()@) {
            Some(n) => rest.push(n),
            None => rest,
        }
    }
}

/// Whether numbers are in ascending order.
pub open spec fn ascending(v: Seq<u32>) -> bool {
    forall|i: int, j: int| 0 <= i < j < v.len() ==> v[i] <= v[j]
}

/// The fans of an hwmon directory, from the names of its files: the fan
/// number of every `fan<N>_input`, in ascending order.
pub fn fans_from_listing(names: &Vec<String>) -> (r: Vec<u32>)
    ensures
        ascending(r@),
        r@.to_multiset() == listed_fans(names@).to_multiset(),
{
    let mut r: Vec<u32> = Vec::new();
    let mut i: usize = 0;
    assert(names@.subrange(0, 0) =~= seq![]);
    while i < names.len()
        invariant
            i <= names.len(),
            ascending(r@),
            r@.to_multiset() == listed_fans(names@.subrange(0, i as int)).to_multiset(),
        decreases names.len() - i,
    {
        let ghost pre = names@.subrange(0, i as int);
        let ghost nxt = names@.subrange(0, i + 1);
        assert(nxt.drop_last() =~= pre);
        match fan_number(names[i].as_str()) {
            Some(n) => {
                let ghost before = r@;
                let mut pos: usize = r.len();
                while pos > 0 && r[pos - 1] > n
                    invariant
                        pos <= r.len(),
                        r@ == before,
                        forall|k: int| pos <= k < r.len() ==> r@[k] > n,
                    decreases pos,
                {
                    pos = pos - 1;
                }
                r.insert(pos, n);
                proof {
                    assert(r@ =~= before.insert(pos as int, n));
                    vstd::seq_lib::to_multiset_insert(before, pos as int, n);
                    vstd::seq_lib::to_multiset_build(listed_fans(pre), n);
                    let w = r@;
                    assert forall|a: int, b: int| 0 <= a < b < w.len() implies w[a] <= w[b] by {
                        if a < pos && b < pos {
                            assert(w[a] == before[a] && w[b] == before[b]);
                        } else if a < pos && b == pos {
                            assert(w[a] == before[a]);
                            if pos > 0 {
                                assert(before[a] <= before[pos - 1]);
                            }
                        } else if a < pos {
                            assert(w[a] == before[a] && w[b] == before[b - 1]);
                        } else if a == pos {
                            assert(w[b] == before[b - 1]);
                        } else {
                            assert(w[a] == before[a - 1] && w[b] == before[b - 1]);
                        }
                    }
                }
            },
            None => {},
        }
        i = i + 1;
    }
    assert(names@.subrange(0, names@.len() as int) =~= names@);
    r
}

/// Whether `a` is at most `b` in the order of their characters.
pub open spec fn lex_le(a: Seq<char>, b: Seq<char>) -> bool
    decreases a.len(),
{
    if a.len() == 0 {
        true
    } else if b.len() == 0 {
        false
    } else if a[0] != b[0] {
        a[0] < b[0]
    } else {
        lex_le(a.drop_first(), b.drop_first())
    }
}

fn lex_le_exec(a: &str, b: &str) -> (r: bool)
    ensures
        r == lex_le(a@, b@),
{
    let va = crate::text::chars_of(a);
    let vb = crate::text::chars_of(b);
    let mut i: usize = 0;
    assert(a@.skip(0) =~= a@);
    assert(b@.skip(0) =~= b@);
    while i < va.len() && i < vb.len() && va[i] == vb[i]
        invariant
            va@ == a@,
            vb@ == b@,
            i <= va@.len(),
            i <= vb@.len(),
            lex_le(a@, b@) == lex_le(a@.skip(i as int), b@.skip(i as int)),
        decreases va.len() - i,
    {
        assert(a@.skip(i as int).drop_first() =~= a@.skip(i + 1));
        assert(b@.skip(i as int).drop_first() =~= b@.skip(i + 1));
        i = i + 1;
    }
    if i == va.len() {
        return true;
    }
    if i == vb.len() {
        return false;
    }
    va[i] < vb[i]
}

/// The first of the names in the order of their characters (the one that
/// comes first when they are sorted).
pub open spec fn is_least(names: Seq<String>, r: Seq<char>) -> bool {
    &&& exists|k: int| 0 <= k < names.len() && (#[trigger] names[k])@ == r
    &&& forall|k: int| 0 <= k < names.len() ==> lex_le(r, (#[trigger] names[k])@)
}

/// Law: the order of characters is total.
proof fn lemma_lex_total(a: Seq<char>, b: Seq<char>)
    ensures
        lex_le(a, b) || lex_le(b, a),
    decreases a.len(),
{
    if a.len() > 0 && b.len() > 0 && a[0] == b[0] {
        lemma_lex_total(a.drop_first(), b.drop_first());
    }
}

/// The order of characters is transitive.
proof fn lemma_lex_trans(a: Seq<char>, b: Seq<char>, c: Seq<char>)
    requires
        lex_le(a, b),
        lex_le(b, c),
    ensures
        lex_le(a, c),
    decreases a.len(),
{
    if a.len() > 0 && b.len() > 0 && c.len() > 0 && a[0] == b[0] && b[0] == c[0] {
        lemma_lex_trans(a.drop_first(), b.drop_first(), c.drop_first());
    }
}

/// The least of a non-empty list of names.
pub fn least_name(names: &Vec<String>) -> (r: String)
    requires
        names@.len() > 0,
    ensures
        is_least(names@, r@),
{
    let mut best: usize = 0;
    let mut i: usize = 1;
    proof {
        lemma_lex_refl(names@[0]@);
    }
    while i < names.len()
        invariant
            names@.len() > 0,
            best < i <= names@.len(),
            forall|k: int| 0 <= k < i ==> lex_le(names@[best as int]@, (#[trigger] names@[k])@),
        decreases names.len() - i,
    {
        if !lex_le_exec(names[best].as_str(), names[i].as_str()) {
            proof {
                lemma_lex_total(names@[best as int]@, names@[i as int]@);
                assert forall|k: int| 0 <= k <= i implies lex_le(
                    names@[i as int]@,
                    (#[trigger] names@[k])@,
                ) by {
                    if k < i {
                        lemma_lex_trans(names@[i as int]@, names@[best as int]@, names@[k]@);
                    } else {
                        lemma_lex_refl(names@[i as int]@);
                    }
                }
            }
            best = i;
        }
        i = i + 1;
    }
    names[best].clone()
}

proof fn lemma_lex_refl(a: Seq<char>)
    ensures
        lex_le(a, a),
    decreases a.len(),
{
    if a.len() > 0 {
        lemma_lex_refl(a.drop_first());
    }
}

/// The HP hwmon directory: the first listed hwmon whose driver name is HP's;
/// else, for the first platform device (hp-wmi, hp_wmi, hp-omen) whose
/// `hwmon` directory could be listed and is not empty, its first entry in
/// sorted order.
pub open spec fn hwmon_choice(named: Seq<(String, Option<String>)>, platform: Seq<Option<Vec<String>>>) -> Option<Seq<char>>
    decreases named.len() + platform.len(),
{
    if named.len() > 0 {
        match named[0].1 {
            Some(n) if is_hp_hwmon(spec_trim(n@)) => Some(named[0].0@),
            _ => hwmon_choice(named.drop_first(), platform),
        }
    } else if platform.len() > 0 {
        match platform[0] {
            Some(v) if v@.len() > 0 => Some(choose|r: Seq<char>| is_least(v@, r)),
            _ => hwmon_choice(named, platform.drop_first()),
        }
    } else {
        None
    }
}

/// Find the HP hwmon directory, from the hwmon directories with what
/// reading their `name` file gave, and the listings of the platform
/// devices' `hwmon` directories (none when missing or unreadable).
pub fn choose_hwmon(named: &Vec<(String, Option<String>)>, platform: &Vec<Option<Vec<String>>>) -> (r: Option<String>)
    ensures
        crate::cpu_energy::opt_view(r) == hwmon_choice(named@, platform@),
{
    let mut i: usize = 0;
    assert(named@.skip(0) =~= named@);
    while i < named.len()
        invariant
            i <= named.len(),
            hwmon_choice(named@, platform@) == hwmon_choice(named@.skip(i as int), platform@),
        decreases named.len() - i,
    {
        assert(named@.skip(i as int).drop_first() =~= named@.skip(i + 1));
        match &named[i].1 {
            Some(n) => {
                if hp_hwmon_name(n.as_str()) {
                    return Some(named[i].0.clone());
                }
            },
            None => {},
        }
        i = i + 1;
    }
    let ghost empty: Seq<(String, Option<String>)> = named@.skip(i as int);
    assert(empty.len() == 0);
    let mut k: usize = 0;
    assert(platform@.skip(0) =~= platform@);
    while k < platform.len()
        invariant
            k <= platform.len(),
            empty.len() == 0,
            hwmon_choice(named@, platform@) == hwmon_choice(empty, platform@.skip(k as int)),
        decreases platform.len() - k,
    {
        assert(platform@.skip(k as int).drop_first() =~= platform@.skip(k + 1));
        match &platform[k] {
            Some(v) => {
                if v.len() > 0 {
                    let least = least_name(v);
                    proof {
                        let r = choose|r: Seq<char>| is_least(v@, r);
                        lemma_least_unique(v@, r, least@);
                    }
                    return Some(least);
                }
            },
            None => {},
        }
        k = k + 1;
    }
    None
}

proof fn lemma_lex_antisym(a: Seq<char>, b: Seq<char>)
    requires
        lex_le(a, b),
        lex_le(b, a),
    ensures
        a == b,
    decreases a.len(),
{
    if a.len() > 0 && b.len() > 0 {
        lemma_lex_antisym(a.drop_first(), b.drop_first());
        assert(a =~= seq![a[0]] + a.drop_first());
        assert(b =~= seq![b[0]] + b.drop_first());
    }
}

/// Two least names of the same list are the same name.
proof fn lemma_least_unique(v: Seq<String>, a: Seq<char>, b: Seq<char>)
    requires
        is_least(v, a),
        is_least(v, b),
    ensures
        a == b,
{
    let ka = choose|k: int| 0 <= k < v.len() && (#[trigger] v[k])@ == a;
    let kb = choose|k: int| 0 <= k < v.len() && (#[trigger] v[k])@ == b;
    assert(lex_le(a, v[kb]@));
    assert(lex_le(b, v[ka]@));
    lemma_lex_antisym(a, b);
}

} // verus!

verus! {

/// The maximum speeds after the fans, in order, are given the speeds that
/// their `fan<N>_max` readings give.
pub open spec fn speeds_map(fans: Seq<u32>, reads: Seq<Result<String, String>>) -> Map<u32, u32>
    decreases fans.len(),
{
    if fans.len() == 0 || reads.len() < fans.len() {
        Map::empty()
    } else {
        speeds_map(fans.drop_last(), reads).insert(
            fans.last(),
            max_speed_of(int_reading(reads[fans.len() - 1], 6000)),
        )
    }
}

/// The map that inserting the pairs in order gives.
pub open spec fn pairs_map(pairs: Seq<(u32, String)>) -> Map<u32, Seq<char>>
    decreases pairs.len(),
{
    if pairs.len() == 0 {
        Map::empty()
    } else {
        pairs_map(pairs.drop_last()).insert(pairs.last().0, pairs.last().1@)
    }
}

/// The view of a map of paths.
pub open spec fn paths_view(m: Map<u32, String>) -> Map<u32, Seq<char>> {
    Map::new(|k: u32| m.contains_key(k), |k: u32| m[k]@)
}

impl FanState {
    /// The state of the fan service after detecting the hardware: the HP
    /// hwmon directory (if any), its fans in ascending order with what
    /// reading each `fan<N>_max` gave, the fallback input file of each fan
    /// that has one, and what reading `pwm1_enable` gave (none when it does
    /// not exist). The mode is the hardware's: automatic without an hwmon
    /// device or a `pwm1_enable` file.
    pub fn detected(
        hwmon: Option<String>,
        fans: Vec<u32>,
        max_reads: &Vec<Result<String, String>>,
        fallbacks: &Vec<(u32, String)>,
        enable_read: Option<Result<String, String>>,
        custom_curve_json: String,
    ) -> (r: FanState)
        requires
            max_reads@.len() == fans@.len(),
        ensures
            r.hwmon_path == hwmon,
            r.found_fans@ == fans@,
            r.fan_count == fans@.len() as u32,
            r.max_speeds@ == speeds_map(fans@, max_reads@),
            paths_view(r.fallback_paths@) == pairs_map(fallbacks@),
            r.mode@ == match (hwmon, enable_read) {
                (Some(_), Some(read)) => mode_of_enable(int_reading(read, 2)),
                _ => "auto"@,
            },
            r.custom_curve_json == custom_curve_json,
            r.last_targets@ == Map::<u32, u32>::empty(),
            r.manual_target_pct is None,
            r.last_written_duty is None,
            r.last_written_duty_time is None,
    {
        let mut max_speeds: std::collections::HashMap<u32, u32> = std::collections::HashMap::new();
        let mut i: usize = 0;
        assert(fans@.subrange(0, 0) =~= seq![]);
        while i < fans.len()
            invariant
                i <= fans@.len(),
                max_reads@.len() == fans@.len(),
                max_speeds@ == speeds_map(fans@.subrange(0, i as int), max_reads@),
            decreases fans.len() - i,
        {
            let v = effective_max_speed(read_int(&max_reads[i], 6000));
            max_speeds.insert(fans[i], v);
            assert(fans@.subrange(0, i + 1).drop_last() =~= fans@.subrange(0, i as int));
            i = i + 1;
        }
        assert(fans@.subrange(0, fans@.len() as int) =~= fans@);
        let mut fallback_paths: std::collections::HashMap<u32, String> = std::collections::HashMap::new();
        let mut k: usize = 0;
        assert(fallbacks@.subrange(0, 0) =~= seq![]);
        assert(paths_view(fallback_paths@) =~= Map::empty());
        while k < fallbacks.len()
            invariant
                k <= fallbacks@.len(),
                paths_view(fallback_paths@) == pairs_map(fallbacks@.subrange(0, k as int)),
            decreases fallbacks.len() - k,
        {
            let ghost before = fallback_paths@;
            fallback_paths.insert(fallbacks[k].0, fallbacks[k].1.clone());
            assert(fallbacks@.subrange(0, k + 1).drop_last() =~= fallbacks@.subrange(0, k as int));
            assert(paths_view(fallback_paths@) =~= paths_view(before).insert(
                fallbacks@[k as int].0,
                fallbacks@[k as int].1@,
            ));
            k = k + 1;
        }
        assert(fallbacks@.subrange(0, fallbacks@.len() as int) =~= fallbacks@);
        let mode = match (&hwmon, &enable_read) {
            (Some(_), Some(read)) => owned(mode_from_enable(read_int(read, 2))),
            _ => owned("auto"),
        };
        let n = fans.len() as u32;
        FanState {
            hwmon_path: hwmon,
            found_fans: fans,
            max_speeds,
            fallback_paths,
            fan_count: n,
            mode,
            custom_curve_json,
            last_targets: std::collections::HashMap::new(),
            manual_target_pct: None,
            last_written_duty: None,
            last_written_duty_time: None,
        }
    }

    /// Whether the saved fan mode must be applied at start: there is an
    /// hwmon device and the hardware's mode differs from the saved one.
    pub fn needs_saved_mode(&self, saved: &str) -> (r: bool)
        ensures
            r == (self.hwmon_path is Some && self.mode@ != saved@),
    {
        self.hwmon_path.is_some() && !str_eq(self.mode.as_str(), saved)
    }

    /// The `pwm1_enable` file to check for drift: in manual mode with a
    /// target and an hwmon device.
    pub fn drift_check_path(&self) -> (r: Option<String>)
        ensures
            (self.mode@ == "manual"@ && self.manual_target_pct is Some && self.hwmon_path is Some)
                ==> (r matches Some(p) && p@ == crate::text::path_join(
                self.hwmon_path->0@,
                "pwm1_enable"@,
            )),
            !(self.mode@ == "manual"@ && self.manual_target_pct is Some && self.hwmon_path is Some)
                ==> r is None,
    {
        if str_eq(self.mode.as_str(), "manual") && self.manual_target_pct.is_some() {
            match &self.hwmon_path {
                Some(h) => Some(crate::text::join_path(h.as_str(), "pwm1_enable")),
                None => None,
            }
        } else {
            None
        }
    }

    /// The manual speed to apply again when `pwm1_enable` drifted away
    /// from manual control, given what reading it gave.
    pub fn reapply_after_drift(&self, enable_read: &Result<String, String>) -> (r: Option<u32>)
        ensures
            (self.mode@ == "manual"@ && self.manual_target_pct is Some && self.hwmon_path is Some
                && int_reading(*enable_read, 2) != 1) ==> r == self.manual_target_pct,
            !(self.mode@ == "manual"@ && self.manual_target_pct is Some && self.hwmon_path is Some
                && int_reading(*enable_read, 2) != 1) ==> r is None,
    {
        if str_eq(self.mode.as_str(), "manual") && self.hwmon_path.is_some() {
            match self.manual_target_pct {
                Some(p) => {
                    if read_int(enable_read, 2) != 1 {
                        return Some(p);
                    }
                },
                None => {},
            }
        }
        None
    }

    /// Whether the fans can be reported: an hwmon device with fans.
    pub fn is_available(&self) -> (r: bool)
        ensures
            r == (self.hwmon_path is Some && self.fan_count > 0),
    {
        self.hwmon_path.is_some() && self.fan_count > 0
    }
}

/// The reply of the fan service to a mode or speed change: `OK`, or `ERR: `
/// and the message.
pub fn fan_reply(r: &Result<(), String>) -> (s: String)
    ensures
        match r {
            Ok(()) => s@ == "OK"@,
            Err(m) => s@ == "ERR: "@ + m@,
        },
{
    match r {
        Ok(()) => owned("OK"),
        Err(m) => concat("ERR: ", m.as_str()),
    }
}

/// The file of fan `n` named `fan<n><suffix>` under the hwmon directory.
pub fn fan_file(hwmon: &str, n: u32, suffix: &str) -> (r: String)
    ensures
        r@ == crate::text::path_join(hwmon@, "fan"@ + spec_decimal(n as nat) + suffix@),
{
    let d = decimal(n as u64);
    let mut name = concat("fan", d.as_str());
    append(&mut name, suffix);
    crate::text::join_path(hwmon, name.as_str())
}

/// The index text of an hwmon file name: the name with every `fan`, then
/// every `_input`, removed.
pub open spec fn fan_index_text(name: Seq<char>) -> Seq<char> {
    crate::text::remove_all(crate::text::remove_all(name, "fan"@), "_input"@)
}

/// One fan input file that listing the hwmon directories showed: its path,
/// the directory holding it, and its file name.
#[derive(Debug, Clone, PartialEq, Eq)]
pub struct FanInputFile {
    pub path: String,
    pub dir: String,
    pub name: String,
}

/// The first input file, outside the HP hwmon directory, whose index text
/// is the fan number `n`.
pub open spec fn first_fallback(files: Seq<FanInputFile>, hwmon: Seq<char>, n: u32) -> Option<Seq<char>>
    decreases files.len(),
{
    if files.len() == 0 {
        None
    } else if files[0].dir@ != hwmon && fan_index_text(files[0].name@) == spec_decimal(n as nat) {
        Some(files[0].path@)
    } else {
        first_fallback(files.drop_first(), hwmon, n)
    }
}

/// Another hwmon's input file for fan `n`, from the fan input files of all
/// hwmon directories in listing order: the first outside `hwmon` whose
/// name, without `fan` and `_input`, is the fan number.
pub fn fallback_path(hwmon: &str, files: &Vec<FanInputFile>, n: u32) -> (r: Option<String>)
    ensures
        crate::cpu_energy::opt_view(r) == first_fallback(files@, hwmon@, n),
{
    proof {
        reveal_strlit("fan");
        reveal_strlit("_input");
    }
    let want = decimal(n as u64);
    let mut i: usize = 0;
    assert(files@.skip(0) =~= files@);
    while i < files.len()
        invariant
            i <= files.len(),
            want@ == spec_decimal(n as nat),
            first_fallback(files@, hwmon@, n) == first_fallback(files@.skip(i as int), hwmon@, n),
        decreases files.len() - i,
    {
        assert(files@.skip(i as int).drop_first() =~= files@.skip(i + 1));
        let f = &files[i];
        if !str_eq(f.dir.as_str(), hwmon) {
            let a = crate::text::remove_str(f.name.as_str(), "fan");
            let b = crate::text::remove_str(a.as_str(), "_input");
            if str_eq(b.as_str(), want.as_str()) {
                return Some(f.path.clone());
            }
        }
        i = i + 1;
    }
    None
}

} // verus!

verus! {

impl FanWrite {
    /// Under its invariant, it has a result exactly when it is finished.
    pub proof fn lemma_result_when_finished(self)
        requires
            self.wf(),
        ensures
            self.is_finished() <==> self.result() is Some,
    {
    }

    /// Once finished, a step leaves it as it is and asks for nothing more.
    pub proof fn lemma_finished_stays(self, ev: crate::sysfs::SysfsEvent, new: FanWrite, a: crate::sysfs::SysfsActionView)
        requires
            self.is_finished(),
            self.step_spec(ev, new, a),
        ensures
            new == self,
            a == crate::sysfs::SysfsActionView::Done,
    {
    }

    /// One about to begin is not finished and has no result yet.
    pub proof fn lemma_begins_unfinished(self, speed: bool, hwmon: Seq<char>, enable_val: i64, pct: u32)
        requires
            self.begins(speed, hwmon, enable_val, pct),
        ensures
            !self.is_finished(),
            self.result() is None,
    {
    }

    /// A refused write is finished with `message` as its error.
    pub proof fn lemma_refused(self, message: Seq<char>)
        requires
            self.refused(message),
        ensures
            self.is_finished(),
            self.result() matches Some(Err(m)) && m@ == message,
    {
    }
}

} // verus!

verus! {

/// Law: `custom` is another name for manual control. Whatever its case, a
/// mode name that lowercases to `custom` selects `pwm1_enable = 1`, just as
/// `manual` does; so with an hwmon device `set_mode_internal` begins the
/// manual write at the manual target percentage (else 50%) for it.
pub proof fn lemma_custom_is_manual(mode: Seq<char>)
    ensures
        crate::text::lowercase_of(mode) == "custom"@ ==> enable_of_mode(mode) == Some(1i64),
        crate::text::lowercase_of(mode) == "manual"@ ==> enable_of_mode(mode) == Some(1i64),
{
    reveal_strlit("custom");
    reveal_strlit("manual");
    reveal_strlit("auto");
    reveal_strlit("max");
    assert("custom"@.len() == 6 && "manual"@.len() == 6);
    assert("auto"@.len() == 4 && "max"@.len() == 3);
}

/// Law: without a recorded manual target, the effective speed shown for
/// any mode but full speed is the duty's percentage: at most 100, and the
/// nearest integer to min(pwm, 255) * 100 / 255 (within half a percent).
/// Manual mode without a target shows the same as automatic mode.
pub proof fn lemma_status_without_target(enable: u32, pwm: u32)
    requires
        enable != 0,
    ensures
        ({
            let r = shown_percentage(enable, pwm, None);
            let w: int = if pwm > 255 { 255 } else { pwm as int };
            &&& r <= 100
            &&& -255 < 2 * (255 * (r as int) - 100 * w) < 255
        }),
        shown_percentage(1, pwm, None) == shown_percentage(2, pwm, None),
{
    let w: u32 = if pwm > 255 { 255 } else { pwm };
    lemma_pct_rounds(w);
    assert(pct_of(pwm) == pct_of(w));
}

/// Law: a `fan<N>_max` reading of at least 4000 RPM (that fits a `u32`) is
/// used as it is; a reading that fits a `u32` and is lower is replaced by
/// 6000 RPM.
pub proof fn lemma_max_speed_kept(read: i64)
    ensures
        4000 <= read <= u32::MAX ==> max_speed_of(read) == read,
        0 <= read < 4000 ==> max_speed_of(read) == 6000,
{
}

/// Law: the target speed at a percentage (at most 100) is at most the
/// maximum speed and is the nearest integer to max * pct / 100 (within half
/// an RPM, halves rounded up).
pub proof fn lemma_target_rpm_rounds(max: u32, pct: u32)
    requires
        pct <= 100,
    ensures
        target_rpm_of(max, pct) <= max,
        -100 < 200 * (target_rpm_of(max, pct) as int) - 2 * (max as int) * (pct as int) <= 100,
{
    let q: int = (max * pct * 2 + 100) / 200;
    assert(200 * q <= max * pct * 2 + 100 < 200 * q + 200) by (nonlinear_arith)
        requires
            q == (max * pct * 2 + 100) / 200,
    ;
    assert(q <= max) by (nonlinear_arith)
        requires
            200 * q <= max * pct * 2 + 100,
            pct <= 100,
    ;
    assert(0 <= q) by (nonlinear_arith)
        requires
            q == (max * pct * 2 + 100) / 200,
    ;
    assert(target_rpm_of(max, pct) == q);
    assert(2 * (max as int) * (pct as int) == max * pct * 2) by (nonlinear_arith);
}

} // verus!
