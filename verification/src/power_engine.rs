//! The ACPI platform profile manager and the unified power engine, which
//! applies a power mode transactionally: snapshot, platform profile, EPP,
//! boost, verification, and rollback of everything modified on failure.

use vstd::prelude::*;
use crate::cpu_energy::{
    BoostWrite, CpuEnergyError, CpuEnergyManager, CpuEnergySnapshot, CpufreqScan, EppWrite,
    GovernorWait, RestoreWrite, SnapshotRead, any_epp, boost_read_result, boost_value,
    cpu_error_message, discovery_result, epp_reading, is_io_error, opt_view,
};
use crate::power_model::{
    EppPreference, PowerMode, PowerModeDefinition, boost_of, epp_name, epp_of, get_definition,
    is_definition_of, mode_name, profile_of,
};
use crate::sysfs::{SysfsAction, SysfsActionView, SysfsEvent, WriteFailure, failure_message};
use crate::text::{
    append, contains_str, join, join_path, owned, path_join, spec_join, spec_trim, spec_words,
    split_whitespace, str_eq, trim, trim_both, trim_chars, views,
};

verus! {

/// Error types returned by the power engine. Paths are held as text;
/// `source` holds the message of the underlying I/O error.
#[derive(Debug)]
pub enum PowerEngineError {
    /// An error occurred in the underlying CPU energy subsystem.
    CpuError(CpuEnergyError),
    /// An I/O error occurred while reading or writing the ACPI platform profile.
    PlatformProfileIoError { path: String, action: &'static str, source: String },
    /// The requested platform profile is not among the choices the firmware offers.
    UnsupportedPlatformProfile { requested: String, available: Vec<String> },
    /// No platform profile interface was found.
    PlatformProfileNotSupported,
    /// Post-transition verification failed.
    VerificationFailed { mode: PowerMode, reason: String },
}

/// The human-readable message of a power engine error.
pub open spec fn engine_error_message(e: PowerEngineError) -> Seq<char> {
    match e {
        PowerEngineError::CpuError(c) => "CPU Energy error: "@ + cpu_error_message(c),
        PowerEngineError::PlatformProfileIoError { path, action, source } =>
            "Platform profile I/O error during "@ + action@ + " on '"@ + path@ + "': "@ + source@,
        PowerEngineError::UnsupportedPlatformProfile { requested, available } =>
            "Platform profile '"@ + requested@ + "' is not supported. Available: ["@ + spec_join(
            views(available@),
            ", "@,
        ) + "]"@,
        PowerEngineError::PlatformProfileNotSupported =>
            "ACPI platform_profile interface is not supported"@,
        PowerEngineError::VerificationFailed { mode, reason } =>
            "Power mode transition verification failed for mode '"@ + mode_name(mode) + "': "@
            + reason@,
    }
}

impl PowerEngineError {
    /// The human-readable message of this error.
    pub fn message(&self) -> (r: String)
        ensures
            r@ == engine_error_message(*self),
    {
        let mut m = String::new();
        match self {
            PowerEngineError::CpuError(c) => {
                append(&mut m, "CPU Energy error: ");
                let inner = c.message();
                append(&mut m, inner.as_str());
            },
            PowerEngineError::PlatformProfileIoError { path, action, source } => {
                append(&mut m, "Platform profile I/O error during ");
                append(&mut m, action);
                append(&mut m, " on '");
                append(&mut m, path.as_str());
                append(&mut m, "': ");
                append(&mut m, source.as_str());
            },
            PowerEngineError::UnsupportedPlatformProfile { requested, available } => {
                append(&mut m, "Platform profile '");
                append(&mut m, requested.as_str());
                append(&mut m, "' is not supported. Available: [");
                let j = join(available, ", ");
                append(&mut m, j.as_str());
                append(&mut m, "]");
            },
            PowerEngineError::PlatformProfileNotSupported => {
                append(&mut m, "ACPI platform_profile interface is not supported");
            },
            PowerEngineError::VerificationFailed { mode, reason } => {
                append(&mut m, "Power mode transition verification failed for mode '");
                append(&mut m, mode.as_str());
                append(&mut m, "': ");
                append(&mut m, reason.as_str());
            },
        }
        m
    }
}

impl std::convert::From<CpuEnergyError> for PowerEngineError {
    fn from(err: CpuEnergyError) -> (r: PowerEngineError) {
        PowerEngineError::CpuError(err)
    }
}

impl vstd::std_specs::convert::FromSpecImpl<CpuEnergyError> for PowerEngineError {
    open spec fn obeys_from_spec() -> bool {
        true
    }

    open spec fn from_spec(v: CpuEnergyError) -> PowerEngineError {
        PowerEngineError::CpuError(v)
    }
}

/// Whether an observed hardware profile satisfies a requested semantic
/// profile: equal, or the `power-saver`/`low-power` pair in either order.
pub open spec fn spec_profiles_match(semantic: Seq<char>, actual: Seq<char>) -> bool {
    ||| semantic == actual
    ||| semantic == "power-saver"@ && actual == "low-power"@
    ||| semantic == "low-power"@ && actual == "power-saver"@
}

/// The hardware profile string to write for a requested semantic profile,
/// given the choices the firmware offers: the request itself when there are
/// no listed choices or it is listed, otherwise the listed alias of
/// `power-saver`/`low-power`, otherwise none.
pub open spec fn spec_resolve(choices: Seq<Seq<char>>, requested: Seq<char>) -> Option<Seq<char>> {
    if choices.len() == 0 || choices.contains(requested) {
        Some(requested)
    } else if requested == "power-saver"@ && choices.contains("low-power"@) {
        Some("low-power"@)
    } else if requested == "low-power"@ && choices.contains("power-saver"@) {
        Some("power-saver"@)
    } else {
        None
    }
}

/// Discovered ACPI platform profile endpoints.
#[derive(Debug, PartialEq, Eq)]
pub struct PlatformProfileInfo {
    pub profile_path: String,
    pub choices_path: Option<String>,
    pub available_choices: Vec<String>,
}

/// What probing one candidate location for the platform profile showed.
pub struct ProfileCandidateScan {
    /// Whether the profile file is a regular file.
    pub profile_is_file: bool,
    /// Whether the `_choices` file is a regular file.
    pub underscore_choices_is_file: bool,
    /// Whether the `-choices` file is a regular file.
    pub dash_choices_is_file: bool,
    /// The content of the choices file that was picked, when it could be read.
    pub choices_content: Option<String>,
}

/// The candidate locations of the platform profile, relative to the root, in
/// the order they are tried.
pub open spec fn profile_candidates() -> Seq<Seq<char>> {
    seq![
        "sys/firmware/acpi/platform_profile"@,
        "sys/devices/platform/hp-wmi/platform_profile"@,
        "sys/devices/platform/hp-wmi/platform-profile"@,
    ]
}

/// The choices listed in a choices file: its words with `[` and `]` trimmed.
pub open spec fn listed_choices(content: Seq<char>) -> Seq<Seq<char>> {
    spec_words(content).map_values(|w: Seq<char>| trim_both(w, '[', ']'))
}

/// The profile information that the first present candidate gives, if any:
/// profile path, choices path, and listed choices.
pub open spec fn discovered_profile(root: Seq<char>, scan: Seq<ProfileCandidateScan>) -> Option<(Seq<char>, Option<Seq<char>>, Seq<Seq<char>>)> {
    discovered_at(root, scan, 0)
}

/// The profile information that the first present candidate from `i` on gives.
pub open spec fn discovered_at(root: Seq<char>, scan: Seq<ProfileCandidateScan>, i: int) -> Option<(Seq<char>, Option<Seq<char>>, Seq<Seq<char>>)>
    decreases 3 - i,
{
    if i >= 3 || i >= scan.len() || i < 0 {
        None
    } else if scan[i].profile_is_file {
        let rel = profile_candidates()[i];
        let choices_path = if scan[i].underscore_choices_is_file {
            Some(path_join(root, rel + "_choices"@))
        } else if scan[i].dash_choices_is_file {
            Some(path_join(root, rel + "-choices"@))
        } else {
            None
        };
        let choices = match (choices_path, scan[i].choices_content) {
            (Some(_), Some(c)) => listed_choices(c@),
            _ => seq![],
        };
        Some((path_join(root, rel), choices_path, choices))
    } else {
        discovered_at(root, scan, i + 1)
    }
}

} // verus!

verus! {

/// The view of a platform profile information.
pub open spec fn info_view(i: PlatformProfileInfo) -> (Seq<char>, Option<Seq<char>>, Seq<Seq<char>>) {
    (i.profile_path@, opt_view(i.choices_path), views(i.available_choices@))
}

/// Whether `m` is the manager that discovery under `root` gives for what
/// probing showed: the first present candidate's endpoints, or none.
pub open spec fn profile_discovery(m: PlatformProfileManager, root: Seq<char>, scan: Seq<ProfileCandidateScan>) -> bool {
    match m.info_spec() {
        Some(i) => discovered_profile(root, scan) == Some(info_view(i)),
        None => discovered_profile(root, scan) is None,
    }
}

/// Reading and applying the ACPI platform profile.
#[derive(Debug)]
pub struct PlatformProfileManager {
    info: Option<PlatformProfileInfo>,
}

/// The choices listed in a choices file.
fn parse_choices(content: &str) -> (r: Vec<String>)
    ensures
        views(r@) == listed_choices(content@),
{
    let words = split_whitespace(content);
    let mut r: Vec<String> = Vec::new();
    let mut i: usize = 0;
    while i < words.len()
        invariant
            i <= words.len(),
            views(words@) == spec_words(content@),
            views(r@) == views(words@).subrange(0, i as int).map_values(
                |w: Seq<char>| trim_both(w, '[', ']'),
            ),
        decreases words.len() - i,
    {
        let t = trim_chars(words[i].as_str(), '[', ']');
        let ghost before = views(r@);
        r.push(t);
        i = i + 1;
        assert(views(r@) =~= views(words@).subrange(0, i as int).map_values(
            |w: Seq<char>| trim_both(w, '[', ']'),
        )) by {
            assert(views(r@) =~= before.push(t@));
            assert(views(words@)[i - 1] == words@[i - 1]@);
        }
    }
    assert(views(words@).subrange(0, words@.len() as int) =~= views(words@));
    r
}

impl PlatformProfileManager {
    /// The discovered profile information, if any.
    pub closed spec fn info_spec(&self) -> Option<PlatformProfileInfo> {
        self.info
    }

    /// The choices the firmware offers, or none when there is no interface.
    pub closed spec fn choices_spec(&self) -> Seq<Seq<char>> {
        match self.info {
            Some(i) => views(i.available_choices@),
            None => seq![],
        }
    }

    /// The files to probe under `root`: for each candidate in order, the
    /// profile file and its `_choices` and `-choices` files.
    pub fn probe_paths(root: &str) -> (r: Vec<(String, String, String)>)
        ensures
            r@.len() == 3,
            forall|i: int|
                0 <= i < 3 ==> r@[i].0@ == path_join(root@, profile_candidates()[i]) && r@[i].1@
                    == path_join(root@, profile_candidates()[i] + "_choices"@) && r@[i].2@
                    == path_join(root@, profile_candidates()[i] + "-choices"@),
    {
        let mut r: Vec<(String, String, String)> = Vec::new();
        let c0 = candidate(0);
        let c1 = candidate(1);
        let c2 = candidate(2);
        r.push(probe_triple(root, c0));
        r.push(probe_triple(root, c1));
        r.push(probe_triple(root, c2));
        r
    }

    /// Discover the platform profile interface on the live system (`/`),
    /// from what probing it showed.
    pub fn detect(scan: &Vec<ProfileCandidateScan>) -> (r: PlatformProfileManager)
        ensures
            profile_discovery(r, "/"@, scan@),
    {
        PlatformProfileManager::with_root("/", scan)
    }

    /// Discover the platform profile interface under an explicit root, from
    /// what probing the `probe_paths` of that root showed. The first candidate
    /// whose profile file is present is used, with the `_choices` file, else
    /// the `-choices` file, listing the choices.
    pub fn with_root(root: &str, scan: &Vec<ProfileCandidateScan>) -> (r: PlatformProfileManager)
        ensures
            profile_discovery(r, root@, scan@),
    {
        let mut i: usize = 0;
        while i < 3 && i < scan.len()
            invariant
                i <= 3,
                discovered_profile(root@, scan@) == discovered_at(root@, scan@, i as int),
            decreases 3 - i,
        {
            if scan[i].profile_is_file {
                let rel = candidate(i);
                let profile_path = join_path(root, rel);
                let under = concat_rel(rel, "_choices");
                let dash = concat_rel(rel, "-choices");
                let choices_path = if scan[i].underscore_choices_is_file {
                    Some(join_path(root, under.as_str()))
                } else if scan[i].dash_choices_is_file {
                    Some(join_path(root, dash.as_str()))
                } else {
                    None
                };
                let available_choices = match (&choices_path, &scan[i].choices_content) {
                    (Some(_), Some(c)) => parse_choices(c.as_str()),
                    _ => {
                        let e: Vec<String> = Vec::new();
                        assert(views(e@) =~= seq![]);
                        e
                    },
                };
                return PlatformProfileManager {
                    info: Some(PlatformProfileInfo { profile_path, choices_path, available_choices }),
                };
            }
            i = i + 1;
        }
        PlatformProfileManager { info: None }
    }

    /// Returns true if a platform profile interface was discovered.
    pub fn has_profile_control(&self) -> (r: bool)
        ensures
            r == self.info_spec() is Some,
    {
        self.info.is_some()
    }

    /// The profile choices the firmware offers, if it lists any.
    pub fn available_choices(&self) -> (r: Vec<String>)
        ensures
            views(r@) == self.choices_spec(),
    {
        match &self.info {
            Some(i) => {
                let c = crate::text::clone_strings(&i.available_choices);
                c
            },
            None => {
                let e: Vec<String> = Vec::new();
                assert(views(e@) =~= seq![]);
                e
            },
        }
    }

    /// Resolves a requested semantic profile (e.g. `power-saver`) to the
    /// string the firmware accepts: the request itself when the firmware
    /// lists no choices or lists it; `low-power` for `power-saver` and
    /// `power-saver` for `low-power` when only the alias is listed; none otherwise.
    pub fn resolve_hardware_profile(&self, requested: &str) -> (r: Option<String>)
        ensures
            opt_view(r) == spec_resolve(self.choices_spec(), requested@),
    {
        let choices = self.available_choices();
        proof {
            reveal_strlit("power-saver");
            reveal_strlit("low-power");
        }
        if choices.len() == 0 || contains_str(&choices, requested) {
            return Some(owned(requested));
        }
        if str_eq(requested, "power-saver") && contains_str(&choices, "low-power") {
            return Some(owned("low-power"));
        }
        if str_eq(requested, "low-power") && contains_str(&choices, "power-saver") {
            return Some(owned("power-saver"));
        }
        None
    }

    /// Whether a profile read from the firmware satisfies the requested
    /// semantic profile.
    pub fn profiles_match(&self, semantic: &str, actual_hw: &str) -> (r: bool)
        ensures
            r == spec_profiles_match(semantic@, actual_hw@),
    {
        profiles_match(semantic, actual_hw)
    }

    /// The file to read for the active profile, or the error when there is none.
    pub fn profile_read_path(&self) -> (r: Result<String, PowerEngineError>)
        ensures
            match self.info_spec() {
                Some(i) => r matches Ok(p) && p@ == i.profile_path@,
                None => r matches Err(PowerEngineError::PlatformProfileNotSupported),
            },
    {
        match &self.info {
            Some(i) => Ok(i.profile_path.clone()),
            None => Err(PowerEngineError::PlatformProfileNotSupported),
        }
    }
}

impl PlatformProfileManager {
    /// The currently active platform profile, from what reading the profile
    /// file gave (the reading is ignored when there is no interface).
    pub fn read_profile(&self, read: Result<String, String>) -> (r: Result<String, PowerEngineError>)
        ensures
            match self.info_spec() {
                None => r matches Err(PowerEngineError::PlatformProfileNotSupported),
                Some(i) => match read {
                    Ok(c) => r matches Ok(v) && v@ == spec_trim(c@),
                    Err(m) => r matches Err(PowerEngineError::PlatformProfileIoError {
                        path,
                        action,
                        source,
                    }) && path@ == i.profile_path@ && action@ == "read platform profile"@ && source@
                        == m@,
                },
            },
    {
        match self.profile_read_path() {
            Ok(p) => profile_reading(p.as_str(), read),
            Err(e) => Err(e),
        }
    }
}

/// Whether a profile read from the firmware satisfies the requested semantic profile.
pub fn profiles_match(semantic: &str, actual_hw: &str) -> (r: bool)
    ensures
        r == spec_profiles_match(semantic@, actual_hw@),
{
    if str_eq(semantic, actual_hw) {
        return true;
    }
    (str_eq(semantic, "power-saver") && str_eq(actual_hw, "low-power")) || (str_eq(
        semantic,
        "low-power",
    ) && str_eq(actual_hw, "power-saver"))
}

/// The meaning of reading the profile file: its trimmed content, or an I/O error.
pub fn profile_reading(path: &str, read: Result<String, String>) -> (r: Result<String, PowerEngineError>)
    ensures
        match read {
            Ok(c) => r matches Ok(v) && v@ == spec_trim(c@),
            Err(m) => r matches Err(PowerEngineError::PlatformProfileIoError { path: p, action, source })
                && p@ == path@ && action@ == "read platform profile"@ && source@ == m@,
        },
{
    match read {
        Ok(c) => Ok(trim(c.as_str())),
        Err(m) => Err(
            PowerEngineError::PlatformProfileIoError {
                path: owned(path),
                action: "read platform profile",
                source: m,
            },
        ),
    }
}

/// Candidate `i` of the platform profile locations.
fn candidate(i: usize) -> (r: &'static str)
    requires
        i < 3,
    ensures
        r@ == profile_candidates()[i as int],
{
    if i == 0 {
        "sys/firmware/acpi/platform_profile"
    } else if i == 1 {
        "sys/devices/platform/hp-wmi/platform_profile"
    } else {
        "sys/devices/platform/hp-wmi/platform-profile"
    }
}

fn concat_rel(a: &str, b: &str) -> (r: String)
    ensures
        r@ == a@ + b@,
{
    crate::text::concat(a, b)
}

fn probe_triple(root: &str, rel: &str) -> (r: (String, String, String))
    ensures
        r.0@ == path_join(root@, rel@),
        r.1@ == path_join(root@, rel@ + "_choices"@),
        r.2@ == path_join(root@, rel@ + "-choices"@),
{
    let under = concat_rel(rel, "_choices");
    let dash = concat_rel(rel, "-choices");
    (join_path(root, rel), join_path(root, under.as_str()), join_path(root, dash.as_str()))
}

} // verus!

verus! {

/// The phase of a platform profile write.
#[derive(Debug, PartialEq, Eq, Structural)]
pub enum ProfilePhase {
    Start,
    Write,
    ReadBack,
    Finished,
}

/// A write of the platform profile, verified by reading it back: the
/// requested semantic profile is resolved against the firmware's choices,
/// the resolved string is written, and the profile read back must satisfy
/// the request.
#[derive(Debug)]
pub struct ProfileWrite {
    path: String,
    requested: String,
    hw: String,
    issued: bool,
    phase: ProfilePhase,
    outcome: Option<Result<(), PowerEngineError>>,
}

/// The reason given when a profile read back does not satisfy the request.
pub open spec fn profile_mismatch_reason(requested: Seq<char>, hw: Seq<char>, got: Seq<char>) -> Seq<char> {
    "Platform profile readback mismatch: expected '"@ + requested + "' (hw: '"@ + hw
        + "'), got '"@ + got + "'"@
}

impl ProfileWrite {
    pub closed spec fn result(&self) -> Option<Result<(), PowerEngineError>> {
        self.outcome
    }

    pub closed spec fn is_finished(&self) -> bool {
        self.phase == ProfilePhase::Finished
    }

    pub closed spec fn accepts(&self, ev: SysfsEvent) -> bool {
        match self.phase {
            ProfilePhase::Start => ev is Start,
            ProfilePhase::Write => ev is WriteDone,
            ProfilePhase::ReadBack => ev is ReadDone,
            ProfilePhase::Finished => true,
        }
    }

    pub closed spec fn wf(&self) -> bool {
        self.phase == ProfilePhase::Finished <==> self.outcome is Some
    }

    /// Whether the write to the profile file was asked for, so that the
    /// file may have been modified.
    pub closed spec fn was_issued(&self) -> bool {
        self.issued
    }

    /// A write of `hw` to `path` for the semantic profile `requested`, about to begin.
    pub closed spec fn begins(&self, path: Seq<char>, requested: Seq<char>, hw: Seq<char>) -> bool {
        &&& self.path@ == path
        &&& self.requested@ == requested
        &&& self.hw@ == hw
        &&& !self.issued
        &&& self.phase == ProfilePhase::Start
        &&& self.outcome is None
    }

    /// One step of the write.
    pub closed spec fn step_spec(self, ev: SysfsEvent, new: ProfileWrite, a: SysfsActionView) -> bool {
        &&& new.path == self.path
        &&& new.requested == self.requested
        &&& new.hw == self.hw
        &&& new.issued == (self.issued || self.phase == ProfilePhase::Start)
        &&& match self.phase {
            ProfilePhase::Finished => new == self && a == SysfsActionView::Done,
            ProfilePhase::Start => new.phase == ProfilePhase::Write && new.outcome is None && a == (
            SysfsActionView::Write { path: self.path@, value: self.hw@ }),
            ProfilePhase::Write => match ev {
                SysfsEvent::WriteDone(Ok(())) => new.phase == ProfilePhase::ReadBack && new.outcome is None
                    && a == (SysfsActionView::Read { path: self.path@ }),
                SysfsEvent::WriteDone(Err(f)) => {
                    &&& new.phase == ProfilePhase::Finished
                    &&& a == SysfsActionView::Done
                    &&& new.outcome matches Some(
                        Err(PowerEngineError::PlatformProfileIoError { path, action, source }),
                    ) && path@ == self.path@ && source@ == failure_message(f@) && action@ == match f {
                        WriteFailure::Open(_) => "open platform profile for writing"@,
                        WriteFailure::Write(_) => "write platform profile"@,
                    }
                },
                _ => false,
            },
            ProfilePhase::ReadBack => {
                &&& new.phase == ProfilePhase::Finished
                &&& a == SysfsActionView::Done
                &&& match ev {
                    SysfsEvent::ReadDone(Err(m)) => new.outcome matches Some(
                        Err(PowerEngineError::PlatformProfileIoError { path, action, source }),
                    ) && path@ == self.path@ && action@ == "read platform profile"@ && source@ == m@,
                    SysfsEvent::ReadDone(Ok(c)) => if spec_profiles_match(
                        self.requested@,
                        spec_trim(c@),
                    ) {
                        new.outcome == Some(Ok::<(), PowerEngineError>(()))
                    } else {
                        new.outcome matches Some(
                            Err(PowerEngineError::VerificationFailed { mode, reason }),
                        ) && mode == PowerMode::Work && reason@ == profile_mismatch_reason(
                            self.requested@,
                            self.hw@,
                            spec_trim(c@),
                        )
                    },
                    _ => false,
                }
            },
        }
    }

    /// Whether the write is finished.
    pub fn finished(&self) -> (r: bool)
        ensures
            r == self.is_finished(),
    {
        self.phase == ProfilePhase::Finished
    }

    pub fn outcome(self) -> (r: Option<Result<(), PowerEngineError>>)
        ensures
            r == self.result(),
    {
        self.outcome
    }

    /// Advance the write on what the last requested step showed.
    pub fn step(&mut self, ev: SysfsEvent) -> (a: SysfsAction)
        requires
            old(self).wf(),
            old(self).accepts(ev),
        ensures
            old(self).step_spec(ev, *final(self), a@),
            final(self).wf(),
    {
        match self.phase {
            ProfilePhase::Finished => SysfsAction::Done,
            ProfilePhase::Start => {
                self.phase = ProfilePhase::Write;
                self.issued = true;
                SysfsAction::Write { path: self.path.clone(), value: self.hw.clone() }
            },
            ProfilePhase::Write => match ev {
                SysfsEvent::WriteDone(Ok(())) => {
                    self.phase = ProfilePhase::ReadBack;
                    SysfsAction::Read { path: self.path.clone() }
                },
                SysfsEvent::WriteDone(Err(f)) => {
                    let action = match &f {
                        WriteFailure::Open(_) => "open platform profile for writing",
                        WriteFailure::Write(_) => "write platform profile",
                    };
                    self.phase = ProfilePhase::Finished;
                    self.outcome = Some(
                        Err(
                            PowerEngineError::PlatformProfileIoError {
                                path: self.path.clone(),
                                action,
                                source: f.message(),
                            },
                        ),
                    );
                    SysfsAction::Done
                },
                _ => SysfsAction::Done,
            },
            ProfilePhase::ReadBack => {
                let r = match ev {
                    SysfsEvent::ReadDone(Err(m)) => Err(
                        PowerEngineError::PlatformProfileIoError {
                            path: self.path.clone(),
                            action: "read platform profile",
                            source: m,
                        },
                    ),
                    SysfsEvent::ReadDone(Ok(c)) => {
                        let got = trim(c.as_str());
                        if profiles_match(self.requested.as_str(), got.as_str()) {
                            Ok(())
                        } else {
                            let mut reason = owned("Platform profile readback mismatch: expected '");
                            append(&mut reason, self.requested.as_str());
                            append(&mut reason, "' (hw: '");
                            append(&mut reason, self.hw.as_str());
                            append(&mut reason, "'), got '");
                            append(&mut reason, got.as_str());
                            append(&mut reason, "'");
                            Err(PowerEngineError::VerificationFailed { mode: PowerMode::Work, reason })
                        }
                    },
                    _ => Ok(()),
                };
                self.phase = ProfilePhase::Finished;
                self.outcome = Some(r);
                SysfsAction::Done
            },
        }
    }
}

impl PlatformProfileManager {
    /// What a write of the semantic profile `profile` starts as: refused with
    /// `PlatformProfileNotSupported` without an interface, refused with
    /// `UnsupportedPlatformProfile` when the firmware's choices cannot satisfy
    /// it, and otherwise a write of the resolved profile to the profile file.
    pub open spec fn starts_write(&self, w: ProfileWrite, profile: Seq<char>) -> bool {
        match self.info_spec() {
            None => {
                &&& w.is_finished()
                &&& !w.was_issued()
                &&& w.result() matches Some(Err(PowerEngineError::PlatformProfileNotSupported))
            },
            Some(i) => match spec_resolve(self.choices_spec(), profile) {
                None => {
                    &&& w.is_finished()
                    &&& !w.was_issued()
                    &&& w.result() matches Some(
                        Err(PowerEngineError::UnsupportedPlatformProfile { requested, available }),
                    ) && requested@ == profile && views(available@) == self.choices_spec()
                },
                Some(hw) => w.begins(i.profile_path@, profile, hw),
            },
        }
    }

    /// Begin setting the platform profile to the semantic `profile`.
    /// Without an interface, or when the firmware's choices cannot satisfy
    /// the request, the write is refused and touches nothing.
    pub fn set_profile(&self, profile: &str) -> (w: ProfileWrite)
        ensures
            w.wf(),
            self.starts_write(w, profile@),
    {
        match &self.info {
            None => ProfileWrite {
                path: String::new(),
                requested: String::new(),
                hw: String::new(),
                issued: false,
                phase: ProfilePhase::Finished,
                outcome: Some(Err(PowerEngineError::PlatformProfileNotSupported)),
            },
            Some(i) => match self.resolve_hardware_profile(profile) {
                None => ProfileWrite {
                    path: String::new(),
                    requested: String::new(),
                    hw: String::new(),
                    issued: false,
                    phase: ProfilePhase::Finished,
                    outcome: Some(
                        Err(
                            PowerEngineError::UnsupportedPlatformProfile {
                                requested: owned(profile),
                                available: self.available_choices(),
                            },
                        ),
                    ),
                },
                Some(hw) => ProfileWrite {
                    path: i.profile_path.clone(),
                    requested: owned(profile),
                    hw,
                    issued: false,
                    phase: ProfilePhase::Start,
                    outcome: None,
                },
            },
        }
    }
}

/// Law: the profile that a request resolves to always satisfies that request,
/// so a write of the resolved profile that the firmware keeps passes its readback.
pub proof fn lemma_resolved_profile_matches(choices: Seq<Seq<char>>, requested: Seq<char>)
    ensures
        spec_resolve(choices, requested) matches Some(hw) ==> spec_profiles_match(requested, hw),
{
}

/// Law: profile matching is symmetric.
pub proof fn lemma_profiles_match_symmetric(a: Seq<char>, b: Seq<char>)
    ensures
        spec_profiles_match(a, b) == spec_profiles_match(b, a),
{
}

} // verus!

verus! {

/// How long a transition waits, by default, for cpufreq governors to permit
/// an EPP change, in milliseconds.
pub const DEFAULT_GOVERNOR_TIMEOUT_MS: u64 = 4000;

/// The single authoritative power state controller: it applies the platform
/// profile, the EPP of every CPU policy and the CPU boost flag of a power
/// mode as one transaction (see `ModeTransition`).
#[derive(Debug)]
pub struct UnifiedPowerEngine {
    current_mode: Option<PowerMode>,
    cpu_manager: CpuEnergyManager,
    platform_manager: PlatformProfileManager,
    governor_timeout_ms: u64,
}

/// What initializing an engine under `root` gives for what probing showed:
/// the CPU discovery error, or an engine with no mode, the default governor
/// timeout and the discovered managers.
pub open spec fn engine_init(
    r: Result<UnifiedPowerEngine, PowerEngineError>,
    root: Seq<char>,
    cpu_scan: CpufreqScan,
    profile_scan: Seq<ProfileCandidateScan>,
) -> bool {
    match r {
        Ok(e) => {
            &&& e.wf()
            &&& e.mode_spec() is None
            &&& e.timeout_spec() == DEFAULT_GOVERNOR_TIMEOUT_MS
            &&& discovery_result(Ok(e.cpu_spec()), root, cpu_scan)
            &&& profile_discovery(e.platform_spec(), root, profile_scan)
        },
        Err(PowerEngineError::CpuError(c)) => discovery_result(Err(c), root, cpu_scan),
        Err(_) => false,
    }
}

impl UnifiedPowerEngine {
    /// The authoritative power mode, if one was committed.
    pub closed spec fn mode_spec(&self) -> Option<PowerMode> {
        self.current_mode
    }

    /// The CPU energy manager.
    pub closed spec fn cpu_spec(&self) -> CpuEnergyManager {
        self.cpu_manager
    }

    /// The platform profile manager.
    pub closed spec fn platform_spec(&self) -> PlatformProfileManager {
        self.platform_manager
    }

    /// The governor timeout, in milliseconds.
    pub closed spec fn timeout_spec(&self) -> u64 {
        self.governor_timeout_ms
    }

    /// The invariant of an engine: its CPU manager is well formed.
    pub closed spec fn wf(&self) -> bool {
        self.cpu_manager.wf()
    }

    /// Initializes the engine against the host system (`/`), from what
    /// probing its cpufreq directory and platform profile candidates showed.
    pub fn detect(cpu_scan: &CpufreqScan, profile_scan: &Vec<ProfileCandidateScan>) -> (r: Result<
        UnifiedPowerEngine,
        PowerEngineError,
    >)
        ensures
            engine_init(r, "/"@, *cpu_scan, profile_scan@),
    {
        UnifiedPowerEngine::with_root("/", cpu_scan, profile_scan)
    }

    /// Initializes the engine under an explicit filesystem root.
    pub fn with_root(root: &str, cpu_scan: &CpufreqScan, profile_scan: &Vec<ProfileCandidateScan>) -> (r:
        Result<UnifiedPowerEngine, PowerEngineError>)
        ensures
            engine_init(r, root@, *cpu_scan, profile_scan@),
    {
        let cpu_manager = match CpuEnergyManager::with_root(owned(root), cpu_scan) {
            Ok(m) => m,
            Err(e) => {
                return Err(PowerEngineError::CpuError(e));
            },
        };
        let platform_manager = PlatformProfileManager::with_root(root, profile_scan);
        Ok(
            UnifiedPowerEngine {
                current_mode: None,
                cpu_manager,
                platform_manager,
                governor_timeout_ms: DEFAULT_GOVERNOR_TIMEOUT_MS,
            },
        )
    }

    /// The currently active authoritative power mode, if set.
    pub fn current_mode(&self) -> (r: Option<PowerMode>)
        ensures
            r == self.mode_spec(),
    {
        self.current_mode
    }

    /// The hardware definition of the currently active mode, if set.
    pub fn active_definition(&self) -> (r: Option<PowerModeDefinition>)
        ensures
            match self.mode_spec() {
                Some(m) => r matches Some(d) && is_definition_of(d, m),
                None => r is None,
            },
    {
        match self.current_mode {
            Some(m) => Some(get_definition(m)),
            None => None,
        }
    }

    /// The underlying CPU energy manager.
    pub fn cpu_manager(&self) -> (r: &CpuEnergyManager)
        ensures
            *r == self.cpu_spec(),
    {
        &self.cpu_manager
    }

    /// The underlying platform profile manager.
    pub fn platform_manager(&self) -> (r: &PlatformProfileManager)
        ensures
            *r == self.platform_spec(),
    {
        &self.platform_manager
    }

    /// Sets the longest time, in milliseconds, that a transition waits for
    /// cpufreq governors to permit an EPP change.
    pub fn set_governor_timeout(&mut self, timeout_ms: u64)
        ensures
            final(self).timeout_spec() == timeout_ms,
            final(self).mode_spec() == old(self).mode_spec(),
            final(self).cpu_spec() == old(self).cpu_spec(),
            final(self).platform_spec() == old(self).platform_spec(),
            final(self).wf() == old(self).wf(),
    {
        self.governor_timeout_ms = timeout_ms;
    }
}

} // verus!

verus! {

/// The text of a boolean in messages.
pub open spec fn bool_text(b: bool) -> Seq<char> {
    if b {
        "true"@
    } else {
        "false"@
    }
}

/// The reason given when the boost flag read back differs from the target.
pub open spec fn boost_mismatch_reason(expected: bool, got: bool) -> Seq<char> {
    "Boost mismatch: expected "@ + bool_text(expected) + ", got "@ + bool_text(got)
}

/// The reason given when the EPP read back differs from the target.
pub open spec fn epp_mismatch_reason(expected: Seq<char>, got: Seq<char>) -> Seq<char> {
    "EPP mismatch: expected '"@ + expected + "', got '"@ + got + "'"@
}

/// The reason given when the platform profile read back does not satisfy the target.
pub open spec fn platform_mismatch_reason(expected: Seq<char>, got: Seq<char>) -> Seq<char> {
    "Platform profile mismatch: expected '"@ + expected + "', got '"@ + got + "'"@
}

fn bool_str(b: bool) -> (r: &'static str)
    ensures
        r@ == bool_text(b),
{
    if b {
        "true"
    } else {
        "false"
    }
}

/// Where a mode transition stands.
#[derive(Debug)]
pub enum Stage {
    /// Capturing the CPU state to restore on failure.
    Snapshot(SnapshotRead),
    /// Reading the active platform profile to restore on failure.
    ReadPrevious { issued: bool },
    /// Applying the mode's platform profile.
    Profile(ProfileWrite),
    /// Waiting until no cpufreq governor blocks the mode's EPP.
    Governor(GovernorWait),
    /// Writing the mode's EPP to every policy.
    Epp(EppWrite),
    /// Writing the mode's boost flag.
    Boost(BoostWrite),
    /// Reading back the boost flag.
    VerifyBoost { issued: bool },
    /// Reading back the primary policy's EPP.
    VerifyEpp { issued: bool },
    /// Reading back the platform profile.
    VerifyProfile { issued: bool },
    /// Restoring the captured CPU state after a failure.
    RestoreCpu(RestoreWrite),
    /// Restoring the previous platform profile after a failure.
    RestoreProfile(ProfileWrite),
    /// The transition is over.
    Finished,
}

/// The position of a stage in the order of a transition. The forward
/// stages are numbered 0 to 8, commit is 9, the rollback stages 10 and 11,
/// and the end 12.
pub open spec fn stage_index(s: Stage) -> int {
    match s {
        Stage::Snapshot(_) => 0,
        Stage::ReadPrevious { .. } => 1,
        Stage::Profile(_) => 2,
        Stage::Governor(_) => 3,
        Stage::Epp(_) => 4,
        Stage::Boost(_) => 5,
        Stage::VerifyBoost { .. } => 6,
        Stage::VerifyEpp { .. } => 7,
        Stage::VerifyProfile { .. } => 8,
        Stage::RestoreCpu(_) => 10,
        Stage::RestoreProfile(_) => 11,
        Stage::Finished => 12,
    }
}

/// Whether the stage numbered `k` is performed: the platform profile
/// stages only with a profile interface (`control`), the EPP stages only
/// when some policy exposes EPP, the boost stages only with a boost flag,
/// and the profile restore only when a previous profile was read.
pub open spec fn stage_applies(k: int, control: bool, epp: bool, boost: bool, previous: bool) -> bool {
    if k == 1 || k == 2 || k == 8 {
        control
    } else if k == 3 || k == 4 || k == 7 {
        epp
    } else if k == 5 || k == 6 {
        boost
    } else if k == 11 {
        previous
    } else {
        true
    }
}

/// The first stage numbered `k` or later that is performed.
pub open spec fn first_performed(k: int, control: bool, epp: bool, boost: bool, previous: bool) -> int
    decreases 12 - k,
{
    if k >= 12 {
        12
    } else if stage_applies(k, control, epp, boost, previous) {
        k
    } else {
        first_performed(k + 1, control, epp, boost, previous)
    }
}

/// The first performed stage from `k` on lies between `k` and the end, is
/// performed, and is commit at the latest when `k` is a forward stage.
pub proof fn lemma_first_performed(k: int, control: bool, epp: bool, boost: bool, previous: bool)
    requires
        1 <= k <= 12,
    ensures
        k <= first_performed(k, control, epp, boost, previous) <= 12,
        first_performed(k, control, epp, boost, previous) < 12 ==> stage_applies(
            first_performed(k, control, epp, boost, previous),
            control,
            epp,
            boost,
            previous,
        ),
        k <= 9 ==> first_performed(k, control, epp, boost, previous) <= 9,
    decreases 12 - k,
{
    if k < 12 && !stage_applies(k, control, epp, boost, previous) {
        lemma_first_performed(k + 1, control, epp, boost, previous);
    }
}

/// A transactional application of one power mode:
/// snapshot, platform profile, EPP, boost, verification, commit; on a
/// failure after the platform profile was applied, everything modified is
/// restored before the error is returned.
///
/// Each `step` takes what the caller observed when performing the last
/// action and returns the next action. `Done` while the transition is not
/// finished means that nothing is to be performed: the caller answers with
/// `Start`.
pub struct ModeTransition<'a> {
    engine: &'a UnifiedPowerEngine,
    mode: PowerMode,
    stage: Stage,
    snapshot: Option<CpuEnergySnapshot>,
    previous: Option<String>,
    failure: Option<PowerEngineError>,
    outcome: Option<Result<(), PowerEngineError>>,
}

impl<'a> ModeTransition<'a> {
    /// The engine that the transition applies a mode to.
    pub closed spec fn engine_spec(&self) -> UnifiedPowerEngine {
        *self.engine
    }

    /// The mode being applied.
    pub closed spec fn mode_spec(&self) -> PowerMode {
        self.mode
    }

    /// The current stage.
    pub closed spec fn stage_spec(&self) -> Stage {
        self.stage
    }

    /// The failure that the rollback stages will return, if any.
    pub closed spec fn failure_spec(&self) -> Option<PowerEngineError> {
        self.failure
    }

    /// The CPU state captured before anything was modified, once captured.
    pub closed spec fn snapshot_spec(&self) -> Option<CpuEnergySnapshot> {
        self.snapshot
    }

    /// The platform profile read before anything was modified, if any.
    pub closed spec fn previous_spec(&self) -> Option<Seq<char>> {
        opt_view(self.previous)
    }

    /// The outcome, once the transition is finished.
    pub closed spec fn result(&self) -> Option<Result<(), PowerEngineError>> {
        self.outcome
    }

    /// Whether the transition is finished.
    pub closed spec fn is_finished(&self) -> bool {
        self.stage is Finished
    }

    /// Whether a platform profile interface exists.
    pub closed spec fn control(&self) -> bool {
        self.engine.platform_manager.info_spec() is Some
    }

    /// Whether some policy exposes EPP.
    pub closed spec fn epp_capable(&self) -> bool {
        any_epp(self.engine.cpu_manager.caps_spec().policies@)
    }

    /// Whether the boost flag exists.
    pub closed spec fn boost_capable(&self) -> bool {
        self.engine.cpu_manager.caps_spec().has_boost
    }

    /// The first stage numbered `k` or later that this transition performs.
    pub closed spec fn first_from(&self, k: int) -> int {
        first_performed(k, self.control(), self.epp_capable(), self.boost_capable(), self.previous is Some)
    }

    /// How stage `j` begins.
    pub closed spec fn stage_begins(&self, st: Stage, j: int) -> bool {
        let cpu = self.engine.cpu_manager;
        let platform = self.engine.platform_manager;
        if j == 1 {
            st == Stage::ReadPrevious { issued: false }
        } else if j == 2 {
            st matches Stage::Profile(w) && w.wf() && platform.starts_write(w, profile_of(self.mode))
        } else if j == 3 {
            st matches Stage::Governor(g) && g.wf() && cpu.starts_governor_wait(
                g,
                epp_of(self.mode),
                self.engine.governor_timeout_ms,
            )
        } else if j == 4 {
            st matches Stage::Epp(w) && w.wf() && cpu.starts_epp_write(w, epp_of(self.mode))
        } else if j == 5 {
            st matches Stage::Boost(w) && w.wf() && cpu.starts_boost_write(w, boost_of(self.mode))
        } else if j == 6 {
            st == Stage::VerifyBoost { issued: false }
        } else if j == 7 {
            st == Stage::VerifyEpp { issued: false }
        } else if j == 8 {
            st == Stage::VerifyProfile { issued: false }
        } else if j == 10 {
            st matches Stage::RestoreCpu(r) && r.wf() && cpu.starts_restore(r, self.snapshot->0)
        } else if j == 11 {
            st matches Stage::RestoreProfile(w) && w.wf() && platform.starts_write(
                w,
                self.previous->0@,
            )
        } else {
            false
        }
    }

    /// `new` has entered the first performed stage from `k` on: commit
    /// (9) finishes with success; the end (12) finishes with the failure.
    pub closed spec fn enters(self, new: ModeTransition<'a>, k: int) -> bool {
        let j = self.first_from(k);
        &&& new.engine == self.engine
        &&& new.mode == self.mode
        &&& new.snapshot == self.snapshot
        &&& new.previous == self.previous
        &&& if j == 12 {
            &&& new.stage is Finished
            &&& new.failure is None
            &&& new.outcome == Some(Err::<(), PowerEngineError>(self.failure->0))
        } else if j == 9 {
            &&& new.stage is Finished
            &&& new.failure == self.failure
            &&& new.outcome == Some(Ok::<(), PowerEngineError>(()))
        } else {
            &&& new.failure == self.failure
            &&& new.outcome is None
            &&& self.stage_begins(new.stage, j)
        }
    }

    /// `new` differs from this transition in its stage alone.
    pub closed spec fn keeps(self, new: ModeTransition<'a>) -> bool {
        &&& new.engine == self.engine
        &&& new.mode == self.mode
        &&& new.snapshot == self.snapshot
        &&& new.previous == self.previous
        &&& new.failure == self.failure
        &&& new.outcome == self.outcome
    }

    /// `new` ends the transition with `e`, restoring nothing.
    pub closed spec fn fails_with(self, new: ModeTransition<'a>, e: PowerEngineError) -> bool {
        &&& new.engine == self.engine
        &&& new.mode == self.mode
        &&& new.snapshot == self.snapshot
        &&& new.previous == self.previous
        &&& new.failure == self.failure
        &&& new.stage is Finished
        &&& new.outcome == Some(Err::<(), PowerEngineError>(e))
    }

    /// `new` records the failure it holds and enters the rollback from stage `k`.
    pub closed spec fn rolls_back(self, new: ModeTransition<'a>, k: int) -> bool {
        &&& new.failure is Some
        &&& (ModeTransition { failure: new.failure, ..self }).enters(new, k)
    }
}

} // verus!

verus! {

impl<'a> ModeTransition<'a> {
    /// The invariant of a transition.
    pub closed spec fn wf(&self) -> bool {
        let cpu = self.engine.cpu_manager;
        &&& self.engine.wf()
        &&& (self.stage is Finished <==> self.outcome is Some)
        &&& stage_index(self.stage) <= 8 ==> self.failure is None
        &&& match self.stage {
            Stage::Snapshot(s) => s.wf(),
            Stage::ReadPrevious { .. } => self.snapshot is Some && self.control(),
            Stage::Profile(w) => w.wf() && self.snapshot is Some,
            Stage::Governor(g) => g.wf() && self.snapshot is Some,
            Stage::Epp(w) => w.wf() && self.snapshot is Some,
            Stage::Boost(w) => w.wf() && self.snapshot is Some,
            Stage::VerifyBoost { .. } => self.snapshot is Some && self.boost_capable(),
            Stage::VerifyEpp { issued } => self.snapshot is Some && (issued
                ==> cpu.caps_spec().policies@[0].epp_path is Some),
            Stage::VerifyProfile { .. } => self.snapshot is Some && self.control(),
            Stage::RestoreCpu(r) => r.wf() && self.snapshot is Some && self.failure is Some,
            Stage::RestoreProfile(w) => w.wf() && self.snapshot is Some && self.failure is Some,
            Stage::Finished => true,
        }
    }

    /// Whether `ev` answers the action that was last returned.
    pub closed spec fn accepts(&self, ev: SysfsEvent) -> bool {
        match self.stage {
            Stage::Snapshot(s) => s.is_finished() || s.accepts(ev),
            Stage::ReadPrevious { issued } => if issued {
                ev is ReadDone
            } else {
                ev is Start
            },
            Stage::Profile(w) => w.is_finished() || w.accepts(ev),
            Stage::Governor(g) => g.is_finished() || g.accepts(ev),
            Stage::Epp(w) => w.is_finished() || w.accepts(ev),
            Stage::Boost(w) => w.is_finished() || w.accepts(ev),
            Stage::VerifyBoost { issued } => if issued {
                ev is ReadDone
            } else {
                ev is Start
            },
            Stage::VerifyEpp { issued } => if issued {
                ev is ReadDone
            } else {
                ev is Start
            },
            Stage::VerifyProfile { issued } => if issued {
                ev is ReadDone
            } else {
                ev is Start
            },
            Stage::RestoreCpu(r) => r.is_finished() || r.accepts(ev),
            Stage::RestoreProfile(w) => w.is_finished() || w.accepts(ev),
            Stage::Finished => true,
        }
    }

    /// One step of the transition. A stage that runs an operation passes
    /// each event to it until it finishes, then decides the next stage from
    /// its outcome:
    /// - a snapshot failure ends the transition with that error;
    /// - a platform profile write refused before touching the file ends it
    ///   with that error, nothing having been modified;
    /// - a platform profile failure once the write was issued (the write, or
    ///   its readback, failed or differs), a governor failure, or an EPP
    ///   failure restores the previous platform profile;
    /// - a boost failure, or a verification read that fails or differs from
    ///   the mode's target, restores the CPU snapshot and then the previous
    ///   platform profile;
    /// - the last verification that matches commits.
    /// The outcomes of the restores are ignored: the transition returns the
    /// failure that caused them.
    pub closed spec fn step_spec(self, ev: SysfsEvent, new: ModeTransition<'a>, a: SysfsActionView) -> bool {
        let cpu = self.engine.cpu_manager;
        let platform = self.engine.platform_manager;
        match self.stage {
            Stage::Finished => new == self && a == SysfsActionView::Done,
            Stage::Snapshot(s) => if !s.is_finished() {
                &&& self.keeps(new)
                &&& new.stage matches Stage::Snapshot(s2) && s.step_spec(ev, s2, a)
            } else {
                &&& a == SysfsActionView::Done
                &&& match s.result() {
                    Some(Ok(snap)) => (ModeTransition { snapshot: Some(snap), ..self }).enters(
                        new,
                        1,
                    ),
                    Some(Err(e)) => self.fails_with(new, PowerEngineError::CpuError(e)),
                    None => false,
                }
            },
            Stage::ReadPrevious { issued } => if !issued {
                &&& self.keeps(new)
                &&& new.stage == Stage::ReadPrevious { issued: true }
                &&& a == SysfsActionView::Read { path: platform.info_spec()->0.profile_path@ }
            } else {
                &&& a == SysfsActionView::Done
                &&& match ev {
                    SysfsEvent::ReadDone(r) => {
                        &&& opt_view(new.previous) == match r {
                            Ok(c) => Some(spec_trim(c@)),
                            Err(_) => None::<Seq<char>>,
                        }
                        &&& (ModeTransition { previous: new.previous, ..self }).enters(new, 2)
                    },
                    _ => false,
                }
            },
            Stage::Profile(w) => if !w.is_finished() {
                &&& self.keeps(new)
                &&& new.stage matches Stage::Profile(w2) && w.step_spec(ev, w2, a)
            } else {
                &&& a == SysfsActionView::Done
                &&& match w.result() {
                    Some(Ok(())) => self.enters(new, 3),
                    Some(Err(e)) => if w.was_issued() {
                        (ModeTransition { failure: Some(e), ..self }).enters(new, 11)
                    } else {
                        self.fails_with(new, e)
                    },
                    None => false,
                }
            },
            Stage::Governor(g) => if !g.is_finished() {
                &&& self.keeps(new)
                &&& new.stage matches Stage::Governor(g2) && g.step_spec(ev, g2, a)
            } else {
                &&& a == SysfsActionView::Done
                &&& match g.result() {
                    Some(Ok(())) => self.enters(new, 4),
                    Some(Err(e)) => (ModeTransition {
                        failure: Some(PowerEngineError::CpuError(e)),
                        ..self
                    }).enters(new, 11),
                    None => false,
                }
            },
            Stage::Epp(w) => if !w.is_finished() {
                &&& self.keeps(new)
                &&& new.stage matches Stage::Epp(w2) && w.step_spec(ev, w2, a)
            } else {
                &&& a == SysfsActionView::Done
                &&& match w.result() {
                    Some(Ok(())) => self.enters(new, 5),
                    Some(Err(e)) => (ModeTransition {
                        failure: Some(PowerEngineError::CpuError(e)),
                        ..self
                    }).enters(new, 11),
                    None => false,
                }
            },
            Stage::Boost(w) => if !w.is_finished() {
                &&& self.keeps(new)
                &&& new.stage matches Stage::Boost(w2) && w.step_spec(ev, w2, a)
            } else {
                &&& a == SysfsActionView::Done
                &&& match w.result() {
                    Some(Ok(())) => self.enters(new, 6),
                    Some(Err(e)) => (ModeTransition {
                        failure: Some(PowerEngineError::CpuError(e)),
                        ..self
                    }).enters(new, 10),
                    None => false,
                }
            },
            Stage::VerifyBoost { issued } => {
                let bp = cpu.caps_spec().boost_path->0@;
                if !issued {
                    &&& self.keeps(new)
                    &&& new.stage == Stage::VerifyBoost { issued: true }
                    &&& a == SysfsActionView::Read { path: bp }
                } else {
                    &&& a == SysfsActionView::Done
                    &&& match ev {
                        SysfsEvent::ReadDone(Err(m)) => self.rolls_back(new, 10) && (
                        new.failure->0 matches PowerEngineError::CpuError(e) && is_io_error(
                            e,
                            bp,
                            "read boost"@,
                            m@,
                        )),
                        SysfsEvent::ReadDone(Ok(c)) => match boost_value(spec_trim(c@)) {
                            Some(b) => if b == boost_of(self.mode) {
                                self.enters(new, 7)
                            } else {
                                self.rolls_back(new, 10) && (new.failure->0 matches PowerEngineError::VerificationFailed {
                                    mode,
                                    reason,
                                } && mode == self.mode && reason@ == boost_mismatch_reason(
                                    boost_of(self.mode),
                                    b,
                                ))
                            },
                            None => self.rolls_back(new, 10) && (new.failure->0 matches PowerEngineError::CpuError(
                                CpuEnergyError::InvalidValue { path, value },
                            ) && path@ == bp && value@ == spec_trim(c@)),
                        },
                        _ => false,
                    }
                }
            },
            Stage::VerifyEpp { issued } => {
                let p0 = cpu.caps_spec().policies@[0];
                if !issued {
                    match p0.epp_path {
                        Some(p) => {
                            &&& self.keeps(new)
                            &&& new.stage == Stage::VerifyEpp { issued: true }
                            &&& a == SysfsActionView::Read { path: p@ }
                        },
                        None => {
                            &&& a == SysfsActionView::Done
                            &&& self.rolls_back(new, 10)
                            &&& new.failure->0 matches PowerEngineError::CpuError(
                                CpuEnergyError::EppNotSupported { policy },
                            ) && policy@ == p0.path@
                        },
                    }
                } else {
                    &&& a == SysfsActionView::Done
                    &&& match ev {
                        SysfsEvent::ReadDone(Err(m)) => self.rolls_back(new, 10) && (
                        new.failure->0 matches PowerEngineError::CpuError(e) && is_io_error(
                            e,
                            p0.epp_path->0@,
                            "read EPP"@,
                            m@,
                        )),
                        SysfsEvent::ReadDone(Ok(c)) => if spec_trim(c@) == epp_name(
                            epp_of(self.mode),
                        ) {
                            self.enters(new, 8)
                        } else {
                            self.rolls_back(new, 10) && (new.failure->0 matches PowerEngineError::VerificationFailed {
                                mode,
                                reason,
                            } && mode == self.mode && reason@ == epp_mismatch_reason(
                                epp_name(epp_of(self.mode)),
                                spec_trim(c@),
                            ))
                        },
                        _ => false,
                    }
                }
            },
            Stage::VerifyProfile { issued } => {
                let pp = platform.info_spec()->0.profile_path@;
                if !issued {
                    &&& self.keeps(new)
                    &&& new.stage == Stage::VerifyProfile { issued: true }
                    &&& a == SysfsActionView::Read { path: pp }
                } else {
                    &&& a == SysfsActionView::Done
                    &&& match ev {
                        SysfsEvent::ReadDone(Err(m)) => self.rolls_back(new, 10) && (
                        new.failure->0 matches PowerEngineError::PlatformProfileIoError {
                            path,
                            action,
                            source,
                        } && path@ == pp && action@ == "read platform profile"@ && source@ == m@),
                        SysfsEvent::ReadDone(Ok(c)) => if spec_profiles_match(
                            profile_of(self.mode),
                            spec_trim(c@),
                        ) {
                            self.enters(new, 9)
                        } else {
                            self.rolls_back(new, 10) && (new.failure->0 matches PowerEngineError::VerificationFailed {
                                mode,
                                reason,
                            } && mode == self.mode && reason@ == platform_mismatch_reason(
                                profile_of(self.mode),
                                spec_trim(c@),
                            ))
                        },
                        _ => false,
                    }
                }
            },
            Stage::RestoreCpu(r) => if !r.is_finished() {
                &&& self.keeps(new)
                &&& new.stage matches Stage::RestoreCpu(r2) && r.step_spec(ev, r2, a)
            } else {
                a == SysfsActionView::Done && self.enters(new, 11)
            },
            Stage::RestoreProfile(w) => if !w.is_finished() {
                &&& self.keeps(new)
                &&& new.stage matches Stage::RestoreProfile(w2) && w.step_spec(ev, w2, a)
            } else {
                a == SysfsActionView::Done && self.enters(new, 12)
            },
        }
    }
}

} // verus!

verus! {

impl<'a> ModeTransition<'a> {
    /// The first performed stage numbered `k` or later.
    fn first_applicable(&self, k: u8) -> (j: u8)
        requires
            1 <= k <= 12,
        ensures
            j as int == self.first_from(k as int),
            k <= j <= 12,
    {
        let control = self.engine.platform_manager.has_profile_control();
        let caps = self.engine.cpu_manager.capabilities();
        let epp = caps.has_epp();
        let boost = caps.has_boost;
        let prev = self.previous.is_some();
        let mut j: u8 = k;
        while j < 12
            invariant
                k <= j <= 12,
                self.first_from(k as int) == self.first_from(j as int),
                control == self.control(),
                epp == self.epp_capable(),
                boost == self.boost_capable(),
                prev == self.previous is Some,
            decreases 12 - j,
        {
            let applies = if j == 1 || j == 2 || j == 8 {
                control
            } else if j == 3 || j == 4 || j == 7 {
                epp
            } else if j == 5 || j == 6 {
                boost
            } else if j == 11 {
                prev
            } else {
                true
            };
            if applies {
                return j;
            }
            j = j + 1;
        }
        j
    }

    proof fn lemma_first_from(&self, k: int)
        requires
            1 <= k <= 12,
        ensures
            k <= self.first_from(k) <= 12,
            self.first_from(k) < 12 ==> stage_applies(
                self.first_from(k),
                self.control(),
                self.epp_capable(),
                self.boost_capable(),
                self.previous is Some,
            ),
            k <= 9 ==> self.first_from(k) <= 9,
    {
        lemma_first_performed(
            k,
            self.control(),
            self.epp_capable(),
            self.boost_capable(),
            self.previous is Some,
        );
    }

    /// Enter the first performed stage from `k` on.
    fn enter(&mut self, k: u8)
        requires
            1 <= k <= 12,
            old(self).engine.wf(),
            old(self).snapshot is Some,
            old(self).stage is Finished,
            old(self).outcome is None,
            k >= 10 ==> old(self).failure is Some,
            k <= 9 ==> old(self).failure is None,
        ensures
            old(self).enters(*final(self), k as int),
            final(self).wf(),
    {
        let j = self.first_applicable(k);
        proof {
            self.lemma_first_from(k as int);
        }
        let def = get_definition(self.mode);
        if j == 1 {
            self.stage = Stage::ReadPrevious { issued: false };
        } else if j == 2 {
            let w = self.engine.platform_manager.set_profile(def.platform_profile);
            self.stage = Stage::Profile(w);
        } else if j == 3 {
            let g = self.engine.cpu_manager.wait_for_governor_for_epp(
                def.epp,
                self.engine.governor_timeout_ms,
            );
            self.stage = Stage::Governor(g);
        } else if j == 4 {
            let w = self.engine.cpu_manager.set_epp(def.epp);
            self.stage = Stage::Epp(w);
        } else if j == 5 {
            let w = self.engine.cpu_manager.set_boost(def.boost);
            self.stage = Stage::Boost(w);
        } else if j == 6 {
            self.stage = Stage::VerifyBoost { issued: false };
        } else if j == 7 {
            self.stage = Stage::VerifyEpp { issued: false };
        } else if j == 8 {
            self.stage = Stage::VerifyProfile { issued: false };
        } else if j == 9 {
            self.outcome = Some(Ok(()));
        } else if j == 10 {
            match &self.snapshot {
                Some(snap) => {
                    let r = self.engine.cpu_manager.restore(snap);
                    self.stage = Stage::RestoreCpu(r);
                },
                None => {},
            }
        } else if j == 11 {
            match &self.previous {
                Some(p) => {
                    let w = self.engine.platform_manager.set_profile(p.as_str());
                    self.stage = Stage::RestoreProfile(w);
                },
                None => {},
            }
        } else {
            let mut f: Option<PowerEngineError> = None;
            std::mem::swap(&mut f, &mut self.failure);
            match f {
                Some(e) => {
                    self.outcome = Some(Err(e));
                },
                None => {},
            }
        }
    }
}

} // verus!

verus! {

impl<'a> ModeTransition<'a> {
    /// Whether the transition is finished.
    pub fn finished(&self) -> (r: bool)
        ensures
            r == self.is_finished(),
    {
        match self.stage {
            Stage::Finished => true,
            _ => false,
        }
    }

    /// Record `e` as the failure and enter the rollback from stage `k`.
    fn roll_back(&mut self, e: PowerEngineError, k: u8)
        requires
            k == 10 || k == 11,
            old(self).engine.wf(),
            old(self).snapshot is Some,
            old(self).stage is Finished,
            old(self).outcome is None,
        ensures
            (ModeTransition { failure: Some(e), ..*old(self) }).enters(*final(self), k as int),
            k == 10 ==> final(self).failure == Some(e),
            final(self).wf(),
    {
        self.failure = Some(e);
        proof {
            self.lemma_first_from(k as int);
        }
        self.enter(k);
        proof {
            self.lemma_first_from(k as int);
        }
    }

    /// Advance the transition on what the caller observed when performing
    /// the last action; returns the next action.
    pub fn step(&mut self, ev: SysfsEvent) -> (a: SysfsAction)
        requires
            old(self).wf(),
            old(self).accepts(ev),
        ensures
            old(self).step_spec(ev, *final(self), a@),
            final(self).wf(),
    {
        let mut st = Stage::Finished;
        std::mem::swap(&mut st, &mut self.stage);
        match st {
            Stage::Finished => SysfsAction::Done,
            Stage::Snapshot(s) => self.run_snapshot(s, ev),
            Stage::ReadPrevious { issued } => self.read_previous(issued, ev),
            Stage::Profile(w) => self.run_profile(w, ev),
            Stage::Governor(g) => self.run_governor(g, ev),
            Stage::Epp(w) => self.run_epp(w, ev),
            Stage::Boost(w) => self.run_boost(w, ev),
            Stage::VerifyBoost { issued } => self.verify_boost(issued, ev),
            Stage::VerifyEpp { issued } => self.verify_epp(issued, ev),
            Stage::VerifyProfile { issued } => self.verify_profile(issued, ev),
            Stage::RestoreCpu(r) => self.run_restore_cpu(r, ev),
            Stage::RestoreProfile(w) => self.run_restore_profile(w, ev),
        }
    }
}

} // verus!

verus! {

impl<'a> ModeTransition<'a> {
    fn verify_boost(&mut self, issued: bool, ev: SysfsEvent) -> (a: SysfsAction)
        requires
            old(self).stage is Finished,
            old(self).outcome is None,
            (ModeTransition { stage: Stage::VerifyBoost { issued }, ..*old(self) }).wf(),
            (ModeTransition { stage: Stage::VerifyBoost { issued }, ..*old(self) }).accepts(ev),
        ensures
            (ModeTransition { stage: Stage::VerifyBoost { issued }, ..*old(self) }).step_spec(
                ev,
                *final(self),
                a@,
            ),
            final(self).wf(),
    {
        let path = match self.engine.cpu_manager.boost_read_path() {
            Ok(p) => p,
            Err(_) => {
                return SysfsAction::Done;
            },
        };
        if !issued {
            self.stage = Stage::VerifyBoost { issued: true };
            return SysfsAction::Read { path };
        }
        let target = boost_of_exec(self.mode);
        proof {
            reveal_strlit("1");
            reveal_strlit("0");
        }
        match ev {
            SysfsEvent::ReadDone(r) => {
                match boost_read_result(path.as_str(), r) {
                    Ok(b) => {
                        if b == target {
                            self.enter(7);
                        } else {
                            let mut reason = owned("Boost mismatch: expected ");
                            append(&mut reason, bool_str(target));
                            append(&mut reason, ", got ");
                            append(&mut reason, bool_str(b));
                            self.roll_back(
                                PowerEngineError::VerificationFailed { mode: self.mode, reason },
                                10,
                            );
                        }
                    },
                    Err(e) => {
                        self.roll_back(PowerEngineError::CpuError(e), 10);
                    },
                }
            },
            _ => {},
        }
        SysfsAction::Done
    }

    fn verify_epp(&mut self, issued: bool, ev: SysfsEvent) -> (a: SysfsAction)
        requires
            old(self).stage is Finished,
            old(self).outcome is None,
            (ModeTransition { stage: Stage::VerifyEpp { issued }, ..*old(self) }).wf(),
            (ModeTransition { stage: Stage::VerifyEpp { issued }, ..*old(self) }).accepts(ev),
        ensures
            (ModeTransition { stage: Stage::VerifyEpp { issued }, ..*old(self) }).step_spec(
                ev,
                *final(self),
                a@,
            ),
            final(self).wf(),
    {
        let path = match self.engine.cpu_manager.epp_read_path() {
            Ok(p) => p,
            Err(e) => {
                self.roll_back(PowerEngineError::CpuError(e), 10);
                return SysfsAction::Done;
            },
        };
        if !issued {
            self.stage = Stage::VerifyEpp { issued: true };
            return SysfsAction::Read { path };
        }
        let target = get_definition(self.mode).epp.as_str();
        match ev {
            SysfsEvent::ReadDone(r) => {
                match epp_reading(path.as_str(), r) {
                    Ok(actual) => {
                        if str_eq(actual.as_str(), target) {
                            self.enter(8);
                        } else {
                            let mut reason = owned("EPP mismatch: expected '");
                            append(&mut reason, target);
                            append(&mut reason, "', got '");
                            append(&mut reason, actual.as_str());
                            append(&mut reason, "'");
                            self.roll_back(
                                PowerEngineError::VerificationFailed { mode: self.mode, reason },
                                10,
                            );
                        }
                    },
                    Err(e) => {
                        self.roll_back(PowerEngineError::CpuError(e), 10);
                    },
                }
            },
            _ => {},
        }
        SysfsAction::Done
    }

    fn verify_profile(&mut self, issued: bool, ev: SysfsEvent) -> (a: SysfsAction)
        requires
            old(self).stage is Finished,
            old(self).outcome is None,
            (ModeTransition { stage: Stage::VerifyProfile { issued }, ..*old(self) }).wf(),
            (ModeTransition { stage: Stage::VerifyProfile { issued }, ..*old(self) }).accepts(ev),
        ensures
            (ModeTransition { stage: Stage::VerifyProfile { issued }, ..*old(self) }).step_spec(
                ev,
                *final(self),
                a@,
            ),
            final(self).wf(),
    {
        let path = match self.engine.platform_manager.profile_read_path() {
            Ok(p) => p,
            Err(_) => {
                return SysfsAction::Done;
            },
        };
        if !issued {
            self.stage = Stage::VerifyProfile { issued: true };
            return SysfsAction::Read { path };
        }
        let target = get_definition(self.mode).platform_profile;
        match ev {
            SysfsEvent::ReadDone(r) => {
                match profile_reading(path.as_str(), r) {
                    Ok(actual) => {
                        if profiles_match(target, actual.as_str()) {
                            self.enter(9);
                        } else {
                            let mut reason = owned("Platform profile mismatch: expected '");
                            append(&mut reason, target);
                            append(&mut reason, "', got '");
                            append(&mut reason, actual.as_str());
                            append(&mut reason, "'");
                            self.roll_back(
                                PowerEngineError::VerificationFailed { mode: self.mode, reason },
                                10,
                            );
                        }
                    },
                    Err(e) => {
                        self.roll_back(e, 10);
                    },
                }
            },
            _ => {},
        }
        SysfsAction::Done
    }
}

fn boost_of_exec(m: PowerMode) -> (r: bool)
    ensures
        r == boost_of(m),
{
    get_definition(m).boost
}

} // verus!

verus! {

impl<'a> ModeTransition<'a> {
    fn run_snapshot(&mut self, s: SnapshotRead, ev: SysfsEvent) -> (a: SysfsAction)
        requires
            old(self).stage is Finished,
            old(self).outcome is None,
            (ModeTransition { stage: Stage::Snapshot(s), ..*old(self) }).wf(),
            (ModeTransition { stage: Stage::Snapshot(s), ..*old(self) }).accepts(ev),
        ensures
            (ModeTransition { stage: Stage::Snapshot(s), ..*old(self) }).step_spec(
                ev,
                *final(self),
                a@,
            ),
            final(self).wf(),
    {
        let mut s = s;
        if !s.finished() {
            let a = s.step(ev);
            self.stage = Stage::Snapshot(s);
            return a;
        }
        match s.outcome() {
            Some(Ok(snap)) => {
                self.snapshot = Some(snap);
                self.enter(1);
            },
            Some(Err(e)) => {
                self.outcome = Some(Err(PowerEngineError::CpuError(e)));
            },
            None => {},
        }
        SysfsAction::Done
    }

    fn run_profile(&mut self, w: ProfileWrite, ev: SysfsEvent) -> (a: SysfsAction)
        requires
            old(self).stage is Finished,
            old(self).outcome is None,
            (ModeTransition { stage: Stage::Profile(w), ..*old(self) }).wf(),
            (ModeTransition { stage: Stage::Profile(w), ..*old(self) }).accepts(ev),
        ensures
            (ModeTransition { stage: Stage::Profile(w), ..*old(self) }).step_spec(
                ev,
                *final(self),
                a@,
            ),
            final(self).wf(),
    {
        let mut w = w;
        if !w.finished() {
            let a = w.step(ev);
            self.stage = Stage::Profile(w);
            return a;
        }
        let issued = w.issued;
        match w.outcome() {
            Some(Ok(())) => {
                self.enter(3);
            },
            Some(Err(e)) => {
                if issued {
                    self.roll_back(e, 11);
                } else {
                    self.outcome = Some(Err(e));
                }
            },
            None => {},
        }
        SysfsAction::Done
    }

    fn run_governor(&mut self, g: GovernorWait, ev: SysfsEvent) -> (a: SysfsAction)
        requires
            old(self).stage is Finished,
            old(self).outcome is None,
            (ModeTransition { stage: Stage::Governor(g), ..*old(self) }).wf(),
            (ModeTransition { stage: Stage::Governor(g), ..*old(self) }).accepts(ev),
        ensures
            (ModeTransition { stage: Stage::Governor(g), ..*old(self) }).step_spec(
                ev,
                *final(self),
                a@,
            ),
            final(self).wf(),
    {
        let mut g = g;
        if !g.finished() {
            let a = g.step(ev);
            self.stage = Stage::Governor(g);
            return a;
        }
        match g.outcome() {
            Some(Ok(())) => {
                self.enter(4);
            },
            Some(Err(e)) => {
                self.roll_back(PowerEngineError::CpuError(e), 11);
            },
            None => {},
        }
        SysfsAction::Done
    }

    fn run_epp(&mut self, w: EppWrite, ev: SysfsEvent) -> (a: SysfsAction)
        requires
            old(self).stage is Finished,
            old(self).outcome is None,
            (ModeTransition { stage: Stage::Epp(w), ..*old(self) }).wf(),
            (ModeTransition { stage: Stage::Epp(w), ..*old(self) }).accepts(ev),
        ensures
            (ModeTransition { stage: Stage::Epp(w), ..*old(self) }).step_spec(
                ev,
                *final(self),
                a@,
            ),
            final(self).wf(),
    {
        let mut w = w;
        if !w.finished() {
            let a = w.step(ev);
            self.stage = Stage::Epp(w);
            return a;
        }
        match w.outcome() {
            Some(Ok(())) => {
                self.enter(5);
            },
            Some(Err(e)) => {
                self.roll_back(PowerEngineError::CpuError(e), 11);
            },
            None => {},
        }
        SysfsAction::Done
    }

    fn run_boost(&mut self, w: BoostWrite, ev: SysfsEvent) -> (a: SysfsAction)
        requires
            old(self).stage is Finished,
            old(self).outcome is None,
            (ModeTransition { stage: Stage::Boost(w), ..*old(self) }).wf(),
            (ModeTransition { stage: Stage::Boost(w), ..*old(self) }).accepts(ev),
        ensures
            (ModeTransition { stage: Stage::Boost(w), ..*old(self) }).step_spec(
                ev,
                *final(self),
                a@,
            ),
            final(self).wf(),
    {
        let mut w = w;
        if !w.finished() {
            let a = w.step(ev);
            self.stage = Stage::Boost(w);
            return a;
        }
        match w.outcome() {
            Some(Ok(())) => {
                self.enter(6);
            },
            Some(Err(e)) => {
                self.roll_back(PowerEngineError::CpuError(e), 10);
            },
            None => {},
        }
        SysfsAction::Done
    }

    fn run_restore_cpu(&mut self, r: RestoreWrite, ev: SysfsEvent) -> (a: SysfsAction)
        requires
            old(self).stage is Finished,
            old(self).outcome is None,
            (ModeTransition { stage: Stage::RestoreCpu(r), ..*old(self) }).wf(),
            (ModeTransition { stage: Stage::RestoreCpu(r), ..*old(self) }).accepts(ev),
        ensures
            (ModeTransition { stage: Stage::RestoreCpu(r), ..*old(self) }).step_spec(
                ev,
                *final(self),
                a@,
            ),
            final(self).wf(),
    {
        let mut r = r;
        if !r.finished() {
            let a = r.step(ev);
            self.stage = Stage::RestoreCpu(r);
            return a;
        }
        self.enter(11);
        SysfsAction::Done
    }

    fn run_restore_profile(&mut self, w: ProfileWrite, ev: SysfsEvent) -> (a: SysfsAction)
        requires
            old(self).stage is Finished,
            old(self).outcome is None,
            (ModeTransition { stage: Stage::RestoreProfile(w), ..*old(self) }).wf(),
            (ModeTransition { stage: Stage::RestoreProfile(w), ..*old(self) }).accepts(ev),
        ensures
            (ModeTransition { stage: Stage::RestoreProfile(w), ..*old(self) }).step_spec(
                ev,
                *final(self),
                a@,
            ),
            final(self).wf(),
    {
        let mut w = w;
        if !w.finished() {
            let a = w.step(ev);
            self.stage = Stage::RestoreProfile(w);
            return a;
        }
        self.enter(12);
        SysfsAction::Done
    }

    fn read_previous(&mut self, issued: bool, ev: SysfsEvent) -> (a: SysfsAction)
        requires
            old(self).stage is Finished,
            old(self).outcome is None,
            (ModeTransition { stage: Stage::ReadPrevious { issued }, ..*old(self) }).wf(),
            (ModeTransition { stage: Stage::ReadPrevious { issued }, ..*old(self) }).accepts(ev),
        ensures
            (ModeTransition { stage: Stage::ReadPrevious { issued }, ..*old(self) }).step_spec(
                ev,
                *final(self),
                a@,
            ),
            final(self).wf(),
    {
        let path = match self.engine.platform_manager.profile_read_path() {
            Ok(p) => p,
            Err(_) => {
                return SysfsAction::Done;
            },
        };
        if !issued {
            self.stage = Stage::ReadPrevious { issued: true };
            return SysfsAction::Read { path };
        }
        match ev {
            SysfsEvent::ReadDone(r) => {
                self.previous = match r {
                    Ok(c) => Some(trim(c.as_str())),
                    Err(_) => None,
                };
                self.enter(2);
            },
            _ => {},
        }
        SysfsAction::Done
    }
}

} // verus!

verus! {

/// The outcome of a finished transition, to be committed to its engine.
#[derive(Debug)]
pub struct ModeOutcome {
    mode: PowerMode,
    result: Result<(), PowerEngineError>,
}

impl ModeOutcome {
    /// The mode that was applied.
    pub closed spec fn mode_spec(&self) -> PowerMode {
        self.mode
    }

    /// What applying it gave.
    pub closed spec fn result_spec(&self) -> Result<(), PowerEngineError> {
        self.result
    }

    /// The mode that was applied.
    pub fn mode(&self) -> (r: PowerMode)
        ensures
            r == self.mode_spec(),
    {
        self.mode
    }

    /// Whether applying the mode succeeded.
    pub fn succeeded(&self) -> (r: bool)
        ensures
            r == self.result_spec() is Ok,
    {
        self.result.is_ok()
    }
}

impl<'a> ModeTransition<'a> {
    /// The outcome of the finished transition.
    pub fn finish(self) -> (o: ModeOutcome)
        requires
            self.wf(),
            self.is_finished(),
        ensures
            o.mode_spec() == self.mode_spec(),
            self.result() == Some(o.result_spec()),
    {
        match self.outcome {
            Some(r) => ModeOutcome { mode: self.mode, result: r },
            None => ModeOutcome { mode: self.mode, result: Ok(()) },
        }
    }
}

impl UnifiedPowerEngine {
    /// Begin applying `mode` transactionally.
    ///
    /// When `mode` is already the authoritative mode, the transition is
    /// finished at once with success and touches no hardware. Otherwise it
    /// begins with a snapshot of the CPU state, and proceeds as
    /// `ModeTransition::step_spec` describes.
    pub fn set_mode(&self, mode: PowerMode) -> (t: ModeTransition<'_>)
        requires
            self.wf(),
        ensures
            t.wf(),
            t.engine_spec() == *self,
            t.mode_spec() == mode,
            t.failure_spec() is None,
            t.previous_spec() is None,
            self.mode_spec() == Some(mode) ==> t.is_finished() && t.result() == Some(
                Ok::<(), PowerEngineError>(()),
            ),
            self.mode_spec() != Some(mode) ==> (t.stage_spec() matches Stage::Snapshot(s)
                && self.cpu_spec().starts_snapshot(s)),
    {
        let already = match self.current_mode {
            Some(m) => m == mode,
            None => false,
        };
        if already {
            ModeTransition {
                engine: self,
                mode,
                stage: Stage::Finished,
                snapshot: None,
                previous: None,
                failure: None,
                outcome: Some(Ok(())),
            }
        } else {
            ModeTransition {
                engine: self,
                mode,
                stage: Stage::Snapshot(self.cpu_manager.snapshot()),
                snapshot: None,
                previous: None,
                failure: None,
                outcome: None,
            }
        }
    }

    /// Commit the outcome of a transition: on success the applied mode
    /// becomes the authoritative mode; on failure the mode is unchanged.
    /// Returns what the transition gave.
    pub fn complete(&mut self, o: ModeOutcome) -> (r: Result<(), PowerEngineError>)
        ensures
            r == o.result_spec(),
            final(self).mode_spec() == if r is Ok {
                Some(o.mode_spec())
            } else {
                old(self).mode_spec()
            },
            final(self).cpu_spec() == old(self).cpu_spec(),
            final(self).platform_spec() == old(self).platform_spec(),
            final(self).timeout_spec() == old(self).timeout_spec(),
            final(self).wf() == old(self).wf(),
    {
        let ModeOutcome { mode, result } = o;
        if result.is_ok() {
            self.current_mode = Some(mode);
        }
        result
    }
}

} // verus!

verus! {

/// Law: a transition only moves forward through its stages (snapshot,
/// previous profile, profile, governor wait, EPP, boost, the three
/// verifications, then the CPU restore and the profile restore), never
/// back; the engine and the mode it applies never change.
pub proof fn lemma_stages_advance<'a>(
    t: ModeTransition<'a>,
    ev: SysfsEvent,
    new: ModeTransition<'a>,
    a: SysfsActionView,
)
    requires
        t.wf(),
        t.accepts(ev),
        t.step_spec(ev, new, a),
    ensures
        stage_index(new.stage_spec()) >= stage_index(t.stage_spec()),
        new.engine_spec() == t.engine_spec(),
        new.mode_spec() == t.mode_spec(),
{
    t.lemma_progress(ev, new, a);
}

/// Whether the platform profile may have been modified by the time `t`
/// steps: its write was issued, or the transition is past that stage.
pub open spec fn profile_touched<'a>(t: ModeTransition<'a>) -> bool {
    match t.stage_spec() {
        Stage::Profile(w) => w.was_issued(),
        _ => stage_index(t.stage_spec()) >= 3,
    }
}

/// Law: once anything was written, a failure is never returned before what
/// was modified is restored: a failure of the platform profile write once it
/// was issued (the write or its readback), while waiting for the governors,
/// or while writing the EPP goes on to write back the platform profile read
/// before the transition (ending at once when none was read), and a failure
/// in writing the boost flag or in any verification goes on to restore the
/// CPU snapshot taken before the transition. A profile write refused before
/// touching the file ends the transition with its error.
pub proof fn lemma_failure_rolls_back<'a>(
    t: ModeTransition<'a>,
    ev: SysfsEvent,
    new: ModeTransition<'a>,
    a: SysfsActionView,
)
    requires
        t.wf(),
        t.accepts(ev),
        t.step_spec(ev, new, a),
        2 <= stage_index(t.stage_spec()) <= 8,
        new.failure_spec() is Some || new.result() matches Some(Err(_)),
    ensures
        stage_index(t.stage_spec()) >= 5 ==> (new.stage_spec() matches Stage::RestoreCpu(r)
            && t.engine_spec().cpu_spec().starts_restore(r, t.snapshot_spec()->0)),
        stage_index(t.stage_spec()) <= 4 && profile_touched(t) && t.previous_spec() is Some ==> (
        new.stage_spec() matches Stage::RestoreProfile(w) && t.engine_spec().platform_spec().starts_write(
            w,
            t.previous_spec()->0,
        )),
        stage_index(t.stage_spec()) <= 4 && !(profile_touched(t) && t.previous_spec() is Some)
            ==> new.is_finished() && (new.result() matches Some(Err(_))),
        new.snapshot_spec() == t.snapshot_spec(),
        new.previous_spec() == t.previous_spec(),
{
    t.lemma_progress(ev, new, a);
}

/// Law: once restoring, a transition ends with the failure that caused the
/// rollback, whatever the restores report. A finished CPU restore goes on
/// to restore the platform profile read before the transition (when one was
/// read), and otherwise the transition ends; a finished profile restore ends it.
pub proof fn lemma_rollback_returns_failure<'a>(
    t: ModeTransition<'a>,
    ev: SysfsEvent,
    new: ModeTransition<'a>,
    a: SysfsActionView,
)
    requires
        t.wf(),
        t.accepts(ev),
        t.step_spec(ev, new, a),
        t.stage_spec() is RestoreCpu || t.stage_spec() is RestoreProfile,
    ensures
        t.failure_spec() is Some,
        new.is_finished() ==> new.result() == Some(Err::<(), PowerEngineError>(t.failure_spec()->0)),
        !new.is_finished() ==> new.failure_spec() == t.failure_spec() && (new.stage_spec() is RestoreCpu
            || new.stage_spec() is RestoreProfile),
        t.stage_spec() is RestoreCpu && new.stage_spec() is RestoreProfile ==> t.previous_spec() is Some
            && (new.stage_spec() matches Stage::RestoreProfile(w)
            && t.engine_spec().platform_spec().starts_write(w, t.previous_spec()->0)),
{
    t.lemma_first_from(11);
    t.lemma_first_from(12);
}

impl<'a> ModeTransition<'a> {
    proof fn lemma_progress(self, ev: SysfsEvent, new: ModeTransition<'a>, a: SysfsActionView)
        requires
            self.wf(),
            self.accepts(ev),
            self.step_spec(ev, new, a),
        ensures
            stage_index(new.stage) >= stage_index(self.stage),
            new.engine == self.engine,
            new.mode == self.mode,
            2 <= stage_index(self.stage) <= 8 && (new.failure is Some || new.outcome matches Some(
                Err(_),
            )) ==> {
                &&& stage_index(self.stage) >= 5 ==> (new.stage matches Stage::RestoreCpu(r)
                    && self.engine.cpu_manager.starts_restore(r, self.snapshot->0))
                &&& stage_index(self.stage) <= 4 && profile_touched(self) && self.previous is Some ==> (
                new.stage matches Stage::RestoreProfile(w) && self.engine.platform_manager.starts_write(
                    w,
                    self.previous->0@,
                ))
                &&& stage_index(self.stage) <= 4 && !(profile_touched(self) && self.previous is Some)
                    ==> new.stage is Finished && (new.outcome matches Some(Err(_)))
            },
            2 <= stage_index(self.stage) <= 8 ==> new.snapshot == self.snapshot && new.previous == self.previous,
    {
        let k = stage_index(self.stage) + 1;
        self.lemma_first_from(if k > 12 { 12 } else { k });
        self.lemma_first_from(10);
        self.lemma_first_from(11);
        self.lemma_first_from(12);
        if k <= 12 {
            (ModeTransition { previous: new.previous, ..self }).lemma_first_from(k);
        }
    }
}

} // verus!

verus! {

/// Law: a mode change commits its mode exactly when it succeeds. Take a
/// transition that `set_mode` began on an engine, stepped on the events
/// observed until finished, its outcome (`finish`), and the engine after
/// `complete` committed that outcome: when what `complete` returned is
/// `Ok`, the engine's authoritative mode is the mode that was asked for;
/// otherwise it is what it was before. So the mode is unset until the first
/// change that succeeds, and afterwards is the mode of the latest one.
pub proof fn lemma_mode_commits<'a>(
    states: Seq<ModeTransition<'a>>,
    evs: Seq<SysfsEvent>,
    acts: Seq<SysfsActionView>,
    o: ModeOutcome,
    r: Result<(), PowerEngineError>,
    after: UnifiedPowerEngine,
)
    requires
        states.len() == evs.len() + 1,
        acts.len() == evs.len(),
        forall|i: int| 0 <= i < states.len() ==> (#[trigger] states[i]).wf(),
        forall|i: int|
            0 <= i < evs.len() ==> states[i].accepts(#[trigger] evs[i]) && states[i].step_spec(
                evs[i],
                states[i + 1],
                acts[i],
            ),
        states.last().is_finished(),
        o.mode_spec() == states.last().mode_spec(),
        states.last().result() == Some(o.result_spec()),
        r == o.result_spec(),
        after.mode_spec() == if r is Ok {
            Some(o.mode_spec())
        } else {
            states[0].engine_spec().mode_spec()
        },
    ensures
        r is Ok ==> after.mode_spec() == Some(states[0].mode_spec()),
        r is Err ==> after.mode_spec() == states[0].engine_spec().mode_spec(),
        states.last().result() == Some(r),
{
    assert forall|i: int| 0 <= i < states.len() implies #[trigger] states[i].mode_spec()
        == states[0].mode_spec() && states[i].engine_spec() == states[0].engine_spec() by {
        lemma_trace_keeps_mode(states, evs, acts, i);
    }
    assert(states.last() == states[states.len() - 1]);
}

proof fn lemma_trace_keeps_mode<'a>(
    states: Seq<ModeTransition<'a>>,
    evs: Seq<SysfsEvent>,
    acts: Seq<SysfsActionView>,
    i: int,
)
    requires
        states.len() == evs.len() + 1,
        acts.len() == evs.len(),
        forall|j: int| 0 <= j < states.len() ==> (#[trigger] states[j]).wf(),
        forall|j: int|
            0 <= j < evs.len() ==> states[j].accepts(#[trigger] evs[j]) && states[j].step_spec(
                evs[j],
                states[j + 1],
                acts[j],
            ),
        0 <= i < states.len(),
    ensures
        states[i].mode_spec() == states[0].mode_spec(),
        states[i].engine_spec() == states[0].engine_spec(),
    decreases i,
{
    if i > 0 {
        lemma_trace_keeps_mode(states, evs, acts, i - 1);
        assert(states[i - 1].wf());
        assert(states[i - 1].accepts(evs[i - 1]));
        lemma_stages_advance(states[i - 1], evs[i - 1], states[i], acts[i - 1]);
    }
}

} // verus!

verus! {

impl ProfileWrite {
    /// Under its invariant, it has a result exactly when it is finished.
    pub proof fn lemma_result_when_finished(self)
        requires
            self.wf(),
        ensures
            self.is_finished() <==> self.result() is Some,
    {
    }

    /// Once finished, a step leaves it as it is and asks for nothing more.
    pub proof fn lemma_finished_stays(self, ev: SysfsEvent, new: ProfileWrite, a: SysfsActionView)
        requires
            self.is_finished(),
            self.step_spec(ev, new, a),
        ensures
            new == self,
            a == SysfsActionView::Done,
    {
    }

    /// One about to begin is not finished and has no result yet.
    pub proof fn lemma_begins_unfinished(self, path: Seq<char>, requested: Seq<char>, hw: Seq<char>)
        requires
            self.begins(path, requested, hw),
        ensures
            !self.is_finished(),
            self.result() is None,
    {
    }

    /// A write about to begin has not asked for the file to be written.
    pub proof fn lemma_begins_untouched(self, path: Seq<char>, requested: Seq<char>, hw: Seq<char>)
        requires
            self.begins(path, requested, hw),
        ensures
            !self.was_issued(),
    {
    }
}

impl<'a> ModeTransition<'a> {
    /// Under its invariant, it has a result exactly when it is finished.
    pub proof fn lemma_result_when_finished(self)
        requires
            self.wf(),
        ensures
            self.is_finished() <==> self.result() is Some,
    {
    }

    /// Once finished, a step leaves it as it is and asks for nothing more.
    pub proof fn lemma_finished_stays(self, ev: SysfsEvent, new: ModeTransition<'a>, a: SysfsActionView)
        requires
            self.is_finished(),
            self.step_spec(ev, new, a),
        ensures
            new == self,
            a == SysfsActionView::Done,
    {
    }
}

} // verus!
