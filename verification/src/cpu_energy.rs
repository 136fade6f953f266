//! CPU boost and per-policy Energy Performance Preference (EPP) control:
//! capability discovery, snapshot and restore, and the transactional EPP
//! write with rollback.
//!
//! The sysfs reads and writes themselves are performed by the caller; this
//! module decides what to read and write and what the observed values mean.

use vstd::prelude::*;
use crate::power_model::{EppPreference, epp_name};
use crate::sysfs::{SysfsAction, SysfsActionView, SysfsEvent, SysfsEventView, WriteFailure, failure_message};
use crate::text::{
    append, chars_of, clone_strings, concat, contains_str, decimal, is_prefix, join, join_path, owned,
    parse_unsigned, path_join, spec_decimal, spec_join, spec_parse_unsigned, spec_trim,
    spec_words, split_whitespace, starts_with, str_eq, string_of, trim, trim_leading,
    trim_start_char, views,
};

verus! {

/// Error types returned by the CPU energy subsystem. Paths are held as text;
/// `source` holds the message of the underlying I/O error.
#[derive(Debug)]
pub enum CpuEnergyError {
    /// No cpufreq policy directories were discovered.
    NoPoliciesFound { search_path: String },
    /// CPU frequency boost control interface is missing or unsupported.
    BoostNotSupported { path: String },
    /// CPU EPP interface is missing or unsupported on the specified policy.
    EppNotSupported { policy: String },
    /// The requested EPP preference is not supported by the hardware/driver.
    UnsupportedEppPreference { policy: String, requested: String, available: Vec<String> },
    /// An I/O error occurred while reading or writing a sysfs node.
    IoError { path: String, action: &'static str, source: String },
    /// The value read back from sysfs did not match the value that was written.
    ReadbackMismatch { path: String, expected: String, actual: String },
    /// Invalid data was read from the sysfs node.
    InvalidValue { path: String, value: String },
    /// A multi-policy operation failed, and the subsequent rollback also encountered errors.
    RollbackFailed { original_error: Box<CpuEnergyError>, rollback_errors: Vec<CpuEnergyError> },
    /// A cpufreq governor kept the requested EPP from being written until the timeout passed.
    GovernorTimeout { target_epp: String, policy: String, governor: String, waited_ms: u64 },
}

/// Metadata and path endpoints for a single discovered cpufreq policy.
#[derive(Debug, PartialEq, Eq)]
pub struct PolicyInfo {
    /// Directory path of the policy.
    pub path: String,
    /// Numerical policy index, e.g. `0` for `policy0`.
    pub index: usize,
    /// EPP attribute file path, if present.
    pub epp_path: Option<String>,
    /// Available EPP preferences reported by the policy.
    pub available_epps: Vec<String>,
}

/// The mathematical content of a policy.
pub struct PolicyView {
    pub path: Seq<char>,
    pub index: usize,
    pub epp_path: Option<Seq<char>>,
    pub available_epps: Seq<Seq<char>>,
}

/// The view of an optional string.
pub open spec fn opt_view(o: Option<String>) -> Option<Seq<char>> {
    match o {
        Some(s) => Some(s@),
        None => None,
    }
}

impl View for PolicyInfo {
    type V = PolicyView;

    open spec fn view(&self) -> PolicyView {
        PolicyView {
            path: self.path@,
            index: self.index,
            epp_path: opt_view(self.epp_path),
            available_epps: views(self.available_epps@),
        }
    }
}

/// The views of a sequence of policies.
pub open spec fn policy_views(v: Seq<PolicyInfo>) -> Seq<PolicyView> {
    v.map_values(|p: PolicyInfo| p@)
}

/// Policies in ascending numerical order.
pub open spec fn sorted_by_index(v: Seq<PolicyView>) -> bool {
    forall|i: int, j: int| 0 <= i < j < v.len() ==> v[i].index <= v[j].index
}

/// A copy of an optional string.
pub fn clone_opt(o: &Option<String>) -> (r: Option<String>)
    ensures
        r == *o,
{
    match o {
        Some(s) => Some(s.clone()),
        None => None,
    }
}

impl PolicyInfo {
    /// A copy of this policy.
    pub fn duplicate(&self) -> (r: PolicyInfo)
        ensures
            r@ == self@,
    {
        PolicyInfo {
            path: self.path.clone(),
            index: self.index,
            epp_path: clone_opt(&self.epp_path),
            available_epps: clone_strings(&self.available_epps),
        }
    }
}

/// Discovered capabilities of the system's CPU energy and frequency controls.
#[derive(Debug, PartialEq, Eq)]
pub struct CpuEnergyCapabilities {
    /// True if the global CPU boost control file is present.
    pub has_boost: bool,
    /// Path to the global boost node, if present.
    pub boost_path: Option<String>,
    /// Discovered CPU policies, sorted in ascending numerical order.
    pub policies: Vec<PolicyInfo>,
}

/// Whether some policy of the sequence exposes an EPP interface.
pub open spec fn any_epp(v: Seq<PolicyInfo>) -> bool {
    exists|i: int| 0 <= i < v.len() && (#[trigger] v[i]).epp_path is Some
}

impl CpuEnergyCapabilities {
    /// Returns true if at least one policy exposes an EPP interface.
    pub fn has_epp(&self) -> (r: bool)
        ensures
            r == any_epp(self.policies@),
    {
        let mut i: usize = 0;
        while i < self.policies.len()
            invariant
                i <= self.policies.len(),
                forall|j: int| 0 <= j < i ==> self.policies@[j].epp_path is None,
            decreases self.policies.len() - i,
        {
            if self.policies[i].epp_path.is_some() {
                return true;
            }
            i = i + 1;
        }
        false
    }

    /// Returns the total count of discovered policies.
    pub fn policy_count(&self) -> (r: usize)
        ensures
            r == self.policies@.len(),
    {
        self.policies.len()
    }
}

/// A captured snapshot of CPU boost and per-policy EPP values for rollback.
#[derive(Debug, PartialEq, Eq)]
pub struct CpuEnergySnapshot {
    /// CPU boost status at snapshot time, if supported.
    pub boost: Option<bool>,
    /// EPP file path and its value at snapshot time, one entry per policy
    /// with an EPP interface, in policy order.
    pub policy_epps: Vec<(String, String)>,
}

/// What the filesystem showed of one entry of the cpufreq directory.
pub struct PolicyDirEntry {
    /// The entry's file name.
    pub name: String,
    /// The entry's full path.
    pub path: String,
    /// Whether `<path>/energy_performance_preference` is a regular file.
    pub epp_is_file: bool,
    /// The content of `<path>/energy_performance_available_preferences`,
    /// when it is a regular file that could be read.
    pub available: Option<String>,
}

/// What the filesystem showed under a root when probing for cpufreq controls.
pub struct CpufreqScan {
    /// Whether `sys/devices/system/cpu/cpufreq/boost` is a regular file.
    pub boost_is_file: bool,
    /// Whether `sys/devices/system/cpu/cpufreq` is a directory.
    pub cpufreq_is_dir: bool,
    /// The message of the error that listing the cpufreq directory gave, if any.
    pub read_dir_error: Option<String>,
    /// The entries that listing the cpufreq directory gave.
    pub entries: Vec<PolicyDirEntry>,
}

/// The cpufreq directory under a root.
pub open spec fn cpufreq_dir(root: Seq<char>) -> Seq<char> {
    path_join(root, "sys/devices/system/cpu/cpufreq"@)
}

/// The boost control file under a root.
pub open spec fn boost_file(root: Seq<char>) -> Seq<char> {
    path_join(root, "sys/devices/system/cpu/cpufreq/boost"@)
}

/// The policy that a cpufreq directory entry denotes: entries named `policy`
/// followed by a decimal index.
pub open spec fn entry_policy(e: PolicyDirEntry) -> Option<PolicyView> {
    if is_prefix("policy"@, e.name@) {
        match spec_parse_unsigned(e.name@.skip(6)) {
            Some(v) => if v <= usize::MAX {
                Some(
                    PolicyView {
                        path: e.path@,
                        index: v as usize,
                        epp_path: if e.epp_is_file {
                            Some(path_join(e.path@, "energy_performance_preference"@))
                        } else {
                            None
                        },
                        available_epps: match e.available {
                            Some(c) => spec_words(c@),
                            None => seq![],
                        },
                    },
                )
            } else {
                None
            },
            None => None,
        }
    } else {
        None
    }
}

/// The policies that a list of cpufreq directory entries denotes, in listing order.
pub open spec fn entries_policies(es: Seq<PolicyDirEntry>) -> Seq<PolicyView>
    decreases es.len(),
{
    if es.len() == 0 {
        seq![]
    } else {
        let rest = entries_policies(es.drop_last());
        match entry_policy(es.last()) {
            Some(p) => rest.push(p),
            None => rest,
        }
    }
}

/// High-level manager for CPU boost and Energy Performance Preference,
/// working against an injectable filesystem root.
#[derive(Debug)]
pub struct CpuEnergyManager {
    root: String,
    caps: CpuEnergyCapabilities,
}

impl CpuEnergyManager {
    /// The filesystem root of this manager.
    pub closed spec fn root_path(&self) -> Seq<char> {
        self.root@
    }

    /// The capabilities of this manager.
    pub closed spec fn caps_spec(&self) -> CpuEnergyCapabilities {
        self.caps
    }

    /// Discover CPU energy capabilities against the default system root (`/`),
    /// from what probing that root showed.
    pub fn detect(scan: &CpufreqScan) -> (r: Result<CpuEnergyManager, CpuEnergyError>)
        ensures
            discovery_result(r, "/"@, *scan),
    {
        CpuEnergyManager::with_root(owned("/"), scan)
    }

    /// Discover CPU energy capabilities against an explicit filesystem root,
    /// from what probing that root showed.
    pub fn with_root(root: String, scan: &CpufreqScan) -> (r: Result<
        CpuEnergyManager,
        CpuEnergyError,
    >)
        ensures
            discovery_result(r, root@, *scan),
    {
        let dir = join_path(root.as_str(), "sys/devices/system/cpu/cpufreq");
        let boost = join_path(root.as_str(), "sys/devices/system/cpu/cpufreq/boost");
        let mut policies: Vec<PolicyInfo> = Vec::new();
        if scan.cpufreq_is_dir {
            match &scan.read_dir_error {
                Some(e) => {
                    return Err(
                        CpuEnergyError::IoError {
                            path: dir,
                            action: "read directory",
                            source: e.clone(),
                        },
                    );
                },
                None => {},
            }
            policies = sorted_policies(&scan.entries);
        }
        proof {
            let found = if scan.cpufreq_is_dir {
                entries_policies(scan.entries@)
            } else {
                seq![]
            };
            assert(policy_views(policies@).to_multiset() == found.to_multiset()) by {
                if !scan.cpufreq_is_dir {
                    assert(policy_views(policies@) =~= seq![]);
                }
            }
            vstd::seq_lib::to_multiset_len(found);
            vstd::seq_lib::to_multiset_len(policy_views(policies@));
        }
        if policies.len() == 0 {
            return Err(CpuEnergyError::NoPoliciesFound { search_path: dir });
        }
        let boost_path = if scan.boost_is_file {
            Some(boost)
        } else {
            None
        };
        Ok(
            CpuEnergyManager {
                root,
                caps: CpuEnergyCapabilities { has_boost: scan.boost_is_file, boost_path, policies },
            },
        )
    }

    /// Returns the detected capabilities of this manager.
    pub fn capabilities(&self) -> (r: &CpuEnergyCapabilities)
        ensures
            *r == self.caps_spec(),
    {
        &self.caps
    }

    /// Resolves a path relative to the configured filesystem root; leading
    /// `/` characters of `relative_path` are ignored.
    pub fn sys_path(&self, relative_path: &str) -> (r: String)
        ensures
            r@ == path_join(self.root_path(), trim_leading(relative_path@, '/')),
    {
        let clean = trim_start_char(relative_path, '/');
        join_path(self.root.as_str(), clean.as_str())
    }
}

/// What discovery gives for a root and what probing it showed.
pub open spec fn discovery_result(
    r: Result<CpuEnergyManager, CpuEnergyError>,
    root: Seq<char>,
    scan: CpufreqScan,
) -> bool {
    let found = if scan.cpufreq_is_dir {
        entries_policies(scan.entries@)
    } else {
        seq![]
    };
    if scan.cpufreq_is_dir && scan.read_dir_error is Some {
        r matches Err(CpuEnergyError::IoError { path, action, source }) && path@ == cpufreq_dir(
            root,
        ) && action@ == "read directory"@ && source@ == scan.read_dir_error->0@
    } else if found.len() == 0 {
        r matches Err(CpuEnergyError::NoPoliciesFound { search_path }) && search_path@
            == cpufreq_dir(root)
    } else {
        r matches Ok(m) && {
            let caps = m.caps_spec();
            &&& m.wf()
            &&& m.root_path() == root
            &&& caps.has_boost == scan.boost_is_file
            &&& opt_view(caps.boost_path) == (if scan.boost_is_file {
                Some(boost_file(root))
            } else {
                None
            })
            &&& sorted_by_index(policy_views(caps.policies@))
            &&& policy_views(caps.policies@).to_multiset() == found.to_multiset()
        }
    }
}

/// The policy that one directory entry denotes.
fn policy_of_entry(e: &PolicyDirEntry) -> (r: Option<PolicyInfo>)
    ensures
        match entry_policy(*e) {
            Some(p) => r matches Some(q) && q@ == p,
            None => r is None,
        },
{
    if !starts_with(e.name.as_str(), "policy") {
        return None;
    }
    proof {
        reveal_strlit("policy");
    }
    let v = chars_of(e.name.as_str());
    let rest = string_of(&v, 6, v.len());
    assert(rest@ =~= e.name@.skip(6));
    let index = match parse_unsigned(rest.as_str(), usize::MAX as u64) {
        Some(i) => i as usize,
        None => {
            return None;
        },
    };
    let epp_path = if e.epp_is_file {
        Some(join_path(e.path.as_str(), "energy_performance_preference"))
    } else {
        None
    };
    let available_epps = match &e.available {
        Some(c) => split_whitespace(c.as_str()),
        None => {
            let empty: Vec<String> = Vec::new();
            assert(views(empty@) =~= seq![]);
            empty
        },
    };
    Some(PolicyInfo { path: e.path.clone(), index, epp_path, available_epps })
}

/// The policies that the entries denote, sorted by index.
fn sorted_policies(entries: &Vec<PolicyDirEntry>) -> (r: Vec<PolicyInfo>)
    ensures
        sorted_by_index(policy_views(r@)),
        policy_views(r@).to_multiset() == entries_policies(entries@).to_multiset(),
{
    let mut r: Vec<PolicyInfo> = Vec::new();
    let mut i: usize = 0;
    assert(policy_views(r@) =~= seq![]);
    assert(entries@.subrange(0, 0) =~= seq![]);
    while i < entries.len()
        invariant
            i <= entries.len(),
            sorted_by_index(policy_views(r@)),
            policy_views(r@).to_multiset() == entries_policies(
                entries@.subrange(0, i as int),
            ).to_multiset(),
        decreases entries.len() - i,
    {
        let ghost pre = entries@.subrange(0, i as int);
        let ghost nxt = entries@.subrange(0, i + 1);
        assert(nxt.drop_last() =~= pre);
        assert(nxt.last() == entries@[i as int]);
        match policy_of_entry(&entries[i]) {
            Some(p) => {
                let ghost pv = p@;
                let ghost before = policy_views(r@);
                let mut pos: usize = r.len();
                while pos > 0 && r[pos - 1].index > p.index
                    invariant
                        pos <= r.len(),
                        policy_views(r@) == before,
                        forall|k: int| pos <= k < r.len() ==> r@[k].index > p.index,
                    decreases pos,
                {
                    pos = pos - 1;
                }
                r.insert(pos, p);
                proof {
                    assert(policy_views(r@) =~= before.insert(pos as int, pv));
                    vstd::seq_lib::to_multiset_insert(before, pos as int, pv);
                    vstd::seq_lib::to_multiset_build(entries_policies(pre), pv);
                    let w = policy_views(r@);
                    assert forall|a: int, b: int| 0 <= a < b < w.len() implies w[a].index
                        <= w[b].index by {
                        if a < pos && b < pos {
                            assert(w[a] == before[a] && w[b] == before[b]);
                        } else if a < pos && b == pos {
                            assert(w[a] == before[a]);
                            if pos > 0 {
                                assert(before[a].index <= before[pos - 1].index);
                            }
                        } else if a < pos {
                            assert(w[a] == before[a] && w[b] == before[b - 1]);
                        } else if a == pos {
                            assert(w[b] == before[b - 1]);
                            assert(r@[b].index > pv.index);
                        } else {
                            assert(w[a] == before[a - 1] && w[b] == before[b - 1]);
                        }
                    }
                }
            },
            None => {},
        }
        i = i + 1;
    }
    assert(entries@.subrange(0, entries@.len() as int) =~= entries@);
    r
}

} // verus!

verus! {

/// An I/O error with the given path, action and message.
pub open spec fn is_io_error(e: CpuEnergyError, path: Seq<char>, action: Seq<char>, source: Seq<char>) -> bool {
    e matches CpuEnergyError::IoError { path: p, action: a, source: s } && p@ == path && a@ == action
        && s@ == source
}

/// `errs` is `before` with, when the restore write reported by `ev`
/// failed, an I/O error for `path` appended.
pub open spec fn errors_after(before: Seq<CpuEnergyError>, ev: SysfsEvent, path: Seq<char>, errs: Seq<CpuEnergyError>) -> bool {
    match ev {
        SysfsEvent::WriteDone(Err(f)) => errs.len() == before.len() + 1 && errs.drop_last() == before
            && is_io_error(errs.last(), path, "rollback EPP write"@, failure_message(f@)),
        _ => errs == before,
    }
}

/// The error that a rollback ends with: the original failure when every
/// restore succeeded, otherwise the failure together with the restore errors.
pub open spec fn rollback_outcome(failure: CpuEnergyError, before: Seq<CpuEnergyError>, ev: SysfsEvent, path: Seq<char>, r: CpuEnergyError) -> bool {
    if before.len() == 0 && !(ev matches SysfsEvent::WriteDone(Err(_))) {
        r == failure
    } else {
        r matches CpuEnergyError::RollbackFailed { original_error, rollback_errors }
            && *original_error == failure && errors_after(before, ev, path, rollback_errors@)
    }
}

/// The phase of a transactional EPP write.
#[derive(Debug, PartialEq, Eq, Structural)]
pub enum EppPhase {
    /// Nothing has been requested yet.
    Start,
    /// The current value of the current target is being read.
    ReadOriginal,
    /// The requested value is being written to the current target.
    WriteTarget,
    /// The current target is being read back after the write.
    ReadBack,
    /// Modified targets are being restored, most recent first.
    Rollback,
    /// The outcome is known.
    Finished,
}

/// A transactional write of one EPP value to every policy that exposes an
/// EPP interface. Targets already at the value are left alone; each write is
/// verified by reading it back; on the first failure every policy modified
/// so far is restored to its previous value, most recent first.
#[derive(Debug)]
pub struct EppWrite {
    epp: String,
    targets: Vec<String>,
    idx: usize,
    phase: EppPhase,
    original: String,
    modified: Vec<(String, String)>,
    failure: Option<CpuEnergyError>,
    rollback_errors: Vec<CpuEnergyError>,
    remaining: usize,
    outcome: Option<Result<(), CpuEnergyError>>,
}

/// The views of (path, value) pairs.
pub open spec fn pair_views(v: Seq<(String, String)>) -> Seq<(Seq<char>, Seq<char>)> {
    v.map_values(|p: (String, String)| (p.0@, p.1@))
}

/// The EPP paths of the policies that expose one, in policy order.
pub open spec fn epp_targets(v: Seq<PolicyInfo>) -> Seq<Seq<char>>
    decreases v.len(),
{
    if v.len() == 0 {
        seq![]
    } else {
        let rest = epp_targets(v.drop_last());
        match v.last().epp_path {
            Some(p) => rest.push(p@),
            None => rest,
        }
    }
}

/// The first policy that exposes an EPP interface whose non-empty list of
/// available preferences does not hold `epp`, if any.
pub open spec fn first_unsupported(v: Seq<PolicyInfo>, epp: Seq<char>) -> Option<int>
    decreases v.len(),
{
    if v.len() == 0 {
        None
    } else {
        match first_unsupported(v.drop_last(), epp) {
            Some(i) => Some(i),
            None => if unsupported_at(v, epp, v.len() - 1) {
                Some(v.len() - 1)
            } else {
                None
            },
        }
    }
}

/// Whether policy `i` exposes EPP and its non-empty preference list lacks `epp`.
pub open spec fn unsupported_at(v: Seq<PolicyInfo>, epp: Seq<char>, i: int) -> bool {
    &&& v[i].epp_path is Some
    &&& v[i].available_epps@.len() > 0
    &&& !views(v[i].available_epps@).contains(epp)
}

impl EppWrite {
    /// The outcome, once the write is finished.
    pub closed spec fn result(&self) -> Option<Result<(), CpuEnergyError>> {
        self.outcome
    }

    /// Whether the write is finished.
    pub closed spec fn is_finished(&self) -> bool {
        self.phase == EppPhase::Finished
    }

    /// Whether `ev` answers the step that was last requested.
    pub closed spec fn accepts(&self, ev: SysfsEvent) -> bool {
        match self.phase {
            EppPhase::Start => ev is Start,
            EppPhase::ReadOriginal | EppPhase::ReadBack => ev is ReadDone,
            EppPhase::WriteTarget | EppPhase::Rollback => ev is WriteDone,
            EppPhase::Finished => true,
        }
    }

    /// The invariant of a write in progress.
    pub closed spec fn wf(&self) -> bool {
        &&& self.idx <= self.targets@.len()
        &&& (self.phase == EppPhase::ReadOriginal || self.phase == EppPhase::WriteTarget
            || self.phase == EppPhase::ReadBack) ==> self.idx < self.targets@.len()
        &&& self.remaining <= self.modified@.len()
        &&& self.phase == EppPhase::Rollback ==> self.failure is Some && self.remaining > 0
        &&& self.phase == EppPhase::Finished <==> self.outcome is Some
    }

    /// The outcome of the write, once it is finished.
    pub fn outcome(self) -> (r: Option<Result<(), CpuEnergyError>>)
        ensures
            r == self.result(),
            self.wf() ==> (self.is_finished() <==> r is Some),
    {
        self.outcome
    }

    /// Whether the write is finished.
    pub fn finished(&self) -> (r: bool)
        ensures
            r == self.is_finished(),
    {
        match self.phase {
            EppPhase::Finished => true,
            _ => false,
        }
    }
}

} // verus!

verus! {

impl EppWrite {
    /// `new` is positioned at target `k`: reading it if there is one,
    /// finished with success otherwise.
    closed spec fn at_target(self, new: EppWrite, k: int, a: SysfsActionView) -> bool {
        &&& new.idx == k
        &&& new.modified == self.modified
        &&& new.failure == self.failure
        &&& new.rollback_errors == self.rollback_errors
        &&& new.remaining == self.remaining
        &&& if k < self.targets@.len() {
            &&& new.phase == EppPhase::ReadOriginal
            &&& new.outcome is None
            &&& a == SysfsActionView::Read { path: self.targets@[k]@ }
        } else {
            &&& new.phase == EppPhase::Finished
            &&& new.outcome == Some(Ok::<(), CpuEnergyError>(()))
            &&& a == SysfsActionView::Done
        }
    }

    /// `new` restores the `m` modified targets after failure `e`: it asks
    /// for the most recent restore, or finishes with `e` if there is none.
    closed spec fn rolls_back(self, new: EppWrite, m: Seq<(String, String)>, e: CpuEnergyError, a: SysfsActionView) -> bool {
        &&& new.idx == self.idx
        &&& new.modified@ == m
        &&& new.rollback_errors@ == Seq::<CpuEnergyError>::empty()
        &&& new.remaining == m.len()
        &&& if m.len() > 0 {
            &&& new.failure == Some(e)
            &&& new.phase == EppPhase::Rollback
            &&& new.outcome is None
            &&& a == SysfsActionView::Write { path: m[m.len() - 1].0@, value: m[m.len() - 1].1@ }
        } else {
            &&& new.phase == EppPhase::Finished
            &&& new.outcome == Some(Err::<(), CpuEnergyError>(e))
            &&& a == SysfsActionView::Done
        }
    }

    /// One step of the write: from state `self`, on observing `ev`, the
    /// write moves to `new` and asks for `a`.
    pub closed spec fn step_spec(self, ev: SysfsEvent, new: EppWrite, a: SysfsActionView) -> bool {
        &&& new.epp == self.epp
        &&& new.targets == self.targets
        &&& match self.phase {
            EppPhase::Finished => new == self && a == SysfsActionView::Done,
            EppPhase::Start => self.at_target(new, self.idx as int, a),
            EppPhase::ReadOriginal => {
                let path = self.targets@[self.idx as int]@;
                match ev {
                    SysfsEvent::ReadDone(Err(msg)) => exists|e: CpuEnergyError| is_io_error(
                        e,
                        path,
                        "read original EPP before write"@,
                        msg@,
                    ) && #[trigger] self.rolls_back(new, self.modified@, e, a),
                    SysfsEvent::ReadDone(Ok(c)) => if spec_trim(c@) == self.epp@ {
                        self.at_target(new, self.idx + 1, a)
                    } else {
                        &&& new.idx == self.idx
                        &&& new.phase == EppPhase::WriteTarget
                        &&& new.original@ == spec_trim(c@)
                        &&& new.modified == self.modified
                        &&& new.outcome is None
                        &&& a == SysfsActionView::Write { path, value: self.epp@ }
                    },
                    _ => false,
                }
            },
            EppPhase::WriteTarget => {
                let path = self.targets@[self.idx as int]@;
                match ev {
                    SysfsEvent::WriteDone(Err(f)) => exists|e: CpuEnergyError| is_io_error(
                        e,
                        path,
                        "write EPP"@,
                        failure_message(f@),
                    ) && #[trigger] self.rolls_back(new, self.modified@, e, a),
                    SysfsEvent::WriteDone(Ok(())) => {
                        &&& new.idx == self.idx
                        &&& new.phase == EppPhase::ReadBack
                        &&& new.original == self.original
                        &&& new.modified == self.modified
                        &&& new.outcome is None
                        &&& a == SysfsActionView::Read { path }
                    },
                    _ => false,
                }
            },
            EppPhase::ReadBack => {
                let path = self.targets@[self.idx as int]@;
                let m = self.modified@.push((self.targets@[self.idx as int], self.original));
                match ev {
                    SysfsEvent::ReadDone(Err(msg)) => exists|e: CpuEnergyError| is_io_error(
                        e,
                        path,
                        "readback EPP"@,
                        msg@,
                    ) && #[trigger] self.rolls_back(new, m, e, a),
                    SysfsEvent::ReadDone(Ok(c)) => if spec_trim(c@) == self.epp@ {
                        let grown = EppWrite { modified: new.modified, ..self };
                        &&& new.modified@ == m
                        &&& grown.at_target(new, self.idx + 1, a)
                    } else {
                        exists|e: CpuEnergyError|
                            e matches CpuEnergyError::ReadbackMismatch { path: p, expected, actual }
                                && p@ == path && expected@ == self.epp@ && actual@ == spec_trim(
                                c@,
                            ) && #[trigger] self.rolls_back(new, m, e, a)
                    },
                    _ => false,
                }
            },
            EppPhase::Rollback => {
                let k = self.remaining - 1;
                let path = self.modified@[k].0@;
                &&& ev is WriteDone
                &&& new.idx == self.idx
                &&& new.modified == self.modified
                &&& new.remaining == k
                &&& if k > 0 {
                    &&& new.failure == self.failure
                    &&& errors_after(self.rollback_errors@, ev, path, new.rollback_errors@)
                    &&& new.phase == EppPhase::Rollback
                    &&& new.outcome is None
                    &&& a == SysfsActionView::Write {
                        path: self.modified@[k - 1].0@,
                        value: self.modified@[k - 1].1@,
                    }
                } else {
                    &&& new.phase == EppPhase::Finished
                    &&& a == SysfsActionView::Done
                    &&& new.outcome matches Some(Err(r)) && rollback_outcome(
                        self.failure->0,
                        self.rollback_errors@,
                        ev,
                        path,
                        r,
                    )
                }
            },
        }
    }
}

} // verus!

verus! {

impl EppWrite {
    /// A write of `epp` to the `targets`, about to begin.
    pub closed spec fn begins(&self, targets: Seq<Seq<char>>, epp: Seq<char>) -> bool {
        &&& views(self.targets@) == targets
        &&& self.epp@ == epp
        &&& self.idx == 0
        &&& self.phase == EppPhase::Start
        &&& self.modified@.len() == 0
        &&& self.remaining == 0
        &&& self.failure is None
        &&& self.rollback_errors@.len() == 0
        &&& self.outcome is None
    }

    /// A write that is finished with outcome `r` without touching any file.
    closed spec fn refused(&self, r: Result<(), CpuEnergyError>) -> bool {
        &&& self.phase == EppPhase::Finished
        &&& self.outcome == Some(r)
        &&& self.idx == 0
        &&& self.modified@.len() == 0
        &&& self.remaining == 0
    }

    /// Whether this write was refused with `pred` holding of its error.
    pub closed spec fn refused_with_epp_not_supported(&self, policy: Seq<char>) -> bool {
        self.outcome matches Some(Err(CpuEnergyError::EppNotSupported { policy: p })) && p@ == policy
            && self.phase == EppPhase::Finished && self.idx == 0 && self.modified@.len() == 0
            && self.remaining == 0
    }

    /// Whether this write was refused because a policy lacks the preference.
    pub closed spec fn refused_with_unsupported(&self, policy: PolicyInfo, epp: Seq<char>) -> bool {
        self.outcome matches Some(
            Err(CpuEnergyError::UnsupportedEppPreference { policy: p, requested, available }),
        ) && p@ == policy.path@ && requested@ == epp && views(available@) == views(
            policy.available_epps@,
        ) && self.phase == EppPhase::Finished && self.idx == 0 && self.modified@.len() == 0
            && self.remaining == 0
    }

    fn new_refused(err: CpuEnergyError) -> (w: EppWrite)
        ensures
            w.wf(),
            w.phase == EppPhase::Finished,
            w.outcome == Some(Err::<(), CpuEnergyError>(err)),
            w.idx == 0,
            w.modified@.len() == 0,
            w.remaining == 0,
    {
        EppWrite {
            epp: String::new(),
            targets: Vec::new(),
            idx: 0,
            phase: EppPhase::Finished,
            original: String::new(),
            modified: Vec::new(),
            failure: None,
            rollback_errors: Vec::new(),
            remaining: 0,
            outcome: Some(Err(err)),
        }
    }

    /// Position the write at target `k`.
    fn go_to_target(&mut self, k: usize) -> (a: SysfsAction)
        requires
            k <= old(self).targets@.len(),
            old(self).outcome is None,
        ensures
            old(self).at_target(*final(self), k as int, a@),
            final(self).epp == old(self).epp,
            final(self).targets == old(self).targets,
            final(self).original == old(self).original,
    {
        self.idx = k;
        if k < self.targets.len() {
            self.phase = EppPhase::ReadOriginal;
            SysfsAction::Read { path: self.targets[k].clone() }
        } else {
            self.phase = EppPhase::Finished;
            self.outcome = Some(Ok(()));
            SysfsAction::Done
        }
    }

    /// Begin restoring the modified targets after failure `e`.
    fn start_rollback(&mut self, e: CpuEnergyError) -> (a: SysfsAction)
        requires
            old(self).outcome is None,
        ensures
            old(self).rolls_back(*final(self), old(self).modified@, e, a@),
            final(self).epp == old(self).epp,
            final(self).targets == old(self).targets,
            final(self).original == old(self).original,
    {
        let n = self.modified.len();
        self.rollback_errors = Vec::new();
        self.remaining = n;
        if n > 0 {
            self.failure = Some(e);
            self.phase = EppPhase::Rollback;
            let p = self.modified[n - 1].0.clone();
            let v = self.modified[n - 1].1.clone();
            SysfsAction::Write { path: p, value: v }
        } else {
            self.phase = EppPhase::Finished;
            self.outcome = Some(Err(e));
            SysfsAction::Done
        }
    }
}

} // verus!

verus! {

impl EppWrite {
    /// Advance the write: `ev` is what the caller observed when performing
    /// the step requested last (`Start` on the first call). Returns the next
    /// step to perform; `Done` once the outcome is known.
    pub fn step(&mut self, ev: SysfsEvent) -> (a: SysfsAction)
        requires
            old(self).wf(),
            old(self).accepts(ev),
        ensures
            old(self).step_spec(ev, *final(self), a@),
            final(self).wf(),
    {
        let ghost ev_copy = ev;
        let ghost start = *self;
        match self.phase {
            EppPhase::Finished => {
                assert(*self == start);
                assert(start.phase == EppPhase::Finished);
                assert(start.step_spec(ev_copy, *self, SysfsActionView::Done));
                SysfsAction::Done
            },
            EppPhase::Start => {
                let k = self.idx;
                self.go_to_target(k)
            },
            EppPhase::ReadOriginal => {
                let n = self.targets.len();
                assert(self.idx < n);
                let path = self.targets[self.idx].clone();
                match ev {
                    SysfsEvent::ReadDone(Err(msg)) => {
                        let e = CpuEnergyError::IoError {
                            path,
                            action: "read original EPP before write",
                            source: msg,
                        };
                        let ghost ge = e;
                        let a = self.start_rollback(e);
                        assert(is_io_error(ge, self.targets@[self.idx as int]@, "read original EPP before write"@, ev_copy->ReadDone_0->Err_0@));
                        a
                    },
                    SysfsEvent::ReadDone(Ok(c)) => {
                        let o = trim(c.as_str());
                        if str_eq(o.as_str(), self.epp.as_str()) {
                            let k = self.idx + 1;
                            self.go_to_target(k)
                        } else {
                            self.original = o;
                            self.phase = EppPhase::WriteTarget;
                            SysfsAction::Write { path, value: self.epp.clone() }
                        }
                    },
                    _ => SysfsAction::Done,
                }
            },
            EppPhase::WriteTarget => {
                let path = self.targets[self.idx].clone();
                match ev {
                    SysfsEvent::WriteDone(Err(f)) => {
                        let e = CpuEnergyError::IoError {
                            path,
                            action: "write EPP",
                            source: f.message(),
                        };
                        let ghost ge = e;
                        let a = self.start_rollback(e);
                        assert(is_io_error(ge, self.targets@[self.idx as int]@, "write EPP"@, failure_message(ev_copy->WriteDone_0->Err_0@)));
                        a
                    },
                    SysfsEvent::WriteDone(Ok(())) => {
                        self.phase = EppPhase::ReadBack;
                        SysfsAction::Read { path }
                    },
                    _ => SysfsAction::Done,
                }
            },
            EppPhase::ReadBack => {
                let n = self.targets.len();
                assert(self.idx < n);
                let path = self.targets[self.idx].clone();
                let original = self.original.clone();
                let ghost before = *self;
                self.modified.push((path.clone(), original));
                assert(self.modified@ == before.modified@.push(
                    (before.targets@[before.idx as int], before.original),
                ));
                match ev {
                    SysfsEvent::ReadDone(Err(msg)) => {
                        let e = CpuEnergyError::IoError { path, action: "readback EPP", source: msg };
                        let ghost ge = e;
                        let a = self.start_rollback(e);
                        assert(is_io_error(ge, before.targets@[before.idx as int]@, "readback EPP"@, ev_copy->ReadDone_0->Err_0@));
                        assert(before.rolls_back(*self, self.modified@, ge, a@));
                        a
                    },
                    SysfsEvent::ReadDone(Ok(c)) => {
                        let rb = trim(c.as_str());
                        if str_eq(rb.as_str(), self.epp.as_str()) {
                            let k = self.idx + 1;
                            let a = self.go_to_target(k);
                            assert(EppWrite { modified: self.modified, ..before }.at_target(*self, k as int, a@));
                            a
                        } else {
                            let e = CpuEnergyError::ReadbackMismatch {
                                path,
                                expected: self.epp.clone(),
                                actual: rb,
                            };
                            let ghost ge = e;
                            let a = self.start_rollback(e);
                            assert(ge matches CpuEnergyError::ReadbackMismatch { path: p, expected, actual }
                                && p@ == before.targets@[before.idx as int]@ && expected@ == before.epp@
                                && actual@ == spec_trim(ev_copy->ReadDone_0->Ok_0@));
                            assert(before.rolls_back(*self, self.modified@, ge, a@));
                            a
                        }
                    },
                    _ => SysfsAction::Done,
                }
            },
            EppPhase::Rollback => {
                let k = self.remaining - 1;
                let path = self.modified[k].0.clone();
                match ev {
                    SysfsEvent::WriteDone(Err(f)) => {
                        let e = CpuEnergyError::IoError {
                            path,
                            action: "rollback EPP write",
                            source: f.message(),
                        };
                        let ghost before_errs = self.rollback_errors@;
                        self.rollback_errors.push(e);
                        assert(self.rollback_errors@.drop_last() =~= before_errs);
                    },
                    _ => {},
                }
                self.remaining = k;
                if k > 0 {
                    let p = self.modified[k - 1].0.clone();
                    let v = self.modified[k - 1].1.clone();
                    SysfsAction::Write { path: p, value: v }
                } else {
                    let failure = self.failure.take().unwrap();
                    let mut errs: Vec<CpuEnergyError> = Vec::new();
                    std::mem::swap(&mut errs, &mut self.rollback_errors);
                    let r = if errs.len() == 0 {
                        failure
                    } else {
                        CpuEnergyError::RollbackFailed {
                            original_error: Box::new(failure),
                            rollback_errors: errs,
                        }
                    };
                    self.phase = EppPhase::Finished;
                    self.outcome = Some(Err(r));
                    SysfsAction::Done
                }
            },
        }
    }
}

impl CpuEnergyManager {
    /// The invariant of a manager: at least one policy, sorted by index.
    pub open spec fn wf(&self) -> bool {
        &&& self.caps_spec().policies@.len() > 0
        &&& sorted_by_index(policy_views(self.caps_spec().policies@))
        &&& self.caps_spec().has_boost == self.caps_spec().boost_path is Some
    }

    /// The path reported when no policy exposes an EPP interface: the first
    /// policy's directory, or the cpufreq directory when there is no policy.
    pub closed spec fn epp_missing_path(&self) -> Seq<char> {
        if self.caps.policies@.len() > 0 {
            self.caps.policies@[0].path@
        } else {
            path_join(self.root@, "sys/devices/system/cpu/cpufreq"@)
        }
    }

    fn epp_missing_error(&self) -> (e: CpuEnergyError)
        ensures
            e matches CpuEnergyError::EppNotSupported { policy } && policy@ == self.epp_missing_path(),
    {
        if self.caps.policies.len() > 0 {
            CpuEnergyError::EppNotSupported { policy: self.caps.policies[0].path.clone() }
        } else {
            proof {
                reveal_strlit("sys/devices/system/cpu/cpufreq");
                assert(trim_leading("sys/devices/system/cpu/cpufreq"@, '/')
                    == "sys/devices/system/cpu/cpufreq"@);
            }
            CpuEnergyError::EppNotSupported {
                policy: self.sys_path("sys/devices/system/cpu/cpufreq"),
            }
        }
    }

    /// What setting `epp` starts as: refused with `EppNotSupported` when no
    /// policy exposes EPP, refused with `UnsupportedEppPreference` for the
    /// first policy whose non-empty list of available preferences lacks
    /// `epp`, and otherwise a write of `epp` to every EPP file in policy order.
    pub open spec fn starts_epp_write(&self, w: EppWrite, epp: EppPreference) -> bool {
        &&& !any_epp(self.caps_spec().policies@) ==> w.refused_with_epp_not_supported(
            self.epp_missing_path(),
        )
        &&& any_epp(self.caps_spec().policies@) ==> match first_unsupported(
            self.caps_spec().policies@,
            epp_name(epp),
        ) {
            Some(i) => w.refused_with_unsupported(self.caps_spec().policies@[i], epp_name(epp)),
            None => w.begins(epp_targets(self.caps_spec().policies@), epp_name(epp)),
        }
    }

    /// Begin setting `epp` across all discovered policies.
    ///
    /// When no policy exposes EPP, or some policy's non-empty list of
    /// available preferences lacks `epp`, the returned write is already
    /// finished with that error and touches no file. Otherwise it writes
    /// every policy with an EPP interface, in policy order, as `EppWrite` describes.
    pub fn set_epp(&self, epp: EppPreference) -> (w: EppWrite)
        ensures
            w.wf(),
            self.starts_epp_write(w, epp),
    {
        if !self.caps.has_epp() {
            let e = self.epp_missing_error();
            return EppWrite::new_refused(e);
        }
        let epp_str = owned(epp.as_str());
        let policies = &self.caps.policies;
        let mut targets: Vec<String> = Vec::new();
        let mut i: usize = 0;
        assert(policies@.subrange(0, 0) =~= seq![]);
        assert(views(targets@) =~= seq![]);
        while i < policies.len()
            invariant
                i <= policies.len(),
                policies@ == self.caps_spec().policies@,
                epp_str@ == epp_name(epp),
                first_unsupported(policies@.subrange(0, i as int), epp_str@) is None,
                views(targets@) == epp_targets(policies@.subrange(0, i as int)),
            decreases policies.len() - i,
        {
            let ghost pre = policies@.subrange(0, i as int);
            let ghost nxt = policies@.subrange(0, i + 1);
            assert(nxt.drop_last() =~= pre);
            let p = &policies[i];
            assert(unsupported_at(nxt, epp_str@, i as int) == unsupported_at(policies@, epp_str@, i as int));
            match &p.epp_path {
                Some(ep) => {
                    if p.available_epps.len() > 0 && !contains_str(&p.available_epps, epp_str.as_str()) {
                        proof {
                            lemma_first_unsupported_prefix(policies@, epp_str@, i as int);
                        }
                        let e = CpuEnergyError::UnsupportedEppPreference {
                            policy: p.path.clone(),
                            requested: epp_str,
                            available: clone_strings(&p.available_epps),
                        };
                        assert(policies@[i as int].epp_path is Some);
                        assert(any_epp(policies@));
                        let w = EppWrite::new_refused(e);
                        assert(w.refused_with_unsupported(policies@[i as int], epp_name(epp)));
                        return w;
                    }
                    let ghost tv = views(targets@);
                    targets.push(ep.clone());
                    assert(views(targets@) =~= tv.push(ep@));
                },
                None => {},
            }
            i = i + 1;
        }
        assert(policies@.subrange(0, policies@.len() as int) =~= policies@);
        EppWrite {
            epp: epp_str,
            targets,
            idx: 0,
            phase: EppPhase::Start,
            original: String::new(),
            modified: Vec::new(),
            failure: None,
            rollback_errors: Vec::new(),
            remaining: 0,
            outcome: None,
        }
    }
}

/// The first unsupported policy of a sequence is the first of any longer
/// sequence that begins with it, when that sequence's next policy is unsupported.
proof fn lemma_first_unsupported_prefix(v: Seq<PolicyInfo>, epp: Seq<char>, i: int)
    requires
        0 <= i < v.len(),
        first_unsupported(v.subrange(0, i), epp) is None,
        unsupported_at(v, epp, i),
    ensures
        first_unsupported(v, epp) == Some(i),
    decreases v.len() - i,
{
    let nxt = v.subrange(0, i + 1);
    assert(nxt.drop_last() =~= v.subrange(0, i));
    assert(unsupported_at(nxt, epp, i) == unsupported_at(v, epp, i));
    assert(first_unsupported(nxt, epp) == Some(i));
    lemma_first_unsupported_extends(v, epp, i + 1);
}

/// A sequence's first unsupported policy, once found in a prefix, stays the first.
proof fn lemma_first_unsupported_extends(v: Seq<PolicyInfo>, epp: Seq<char>, n: int)
    requires
        0 < n <= v.len(),
        first_unsupported(v.subrange(0, n), epp) is Some,
    ensures
        first_unsupported(v, epp) == first_unsupported(v.subrange(0, n), epp),
    decreases v.len() - n,
{
    if n < v.len() {
        let nxt = v.subrange(0, n + 1);
        assert(nxt.drop_last() =~= v.subrange(0, n));
        lemma_first_unsupported_extends(v, epp, n + 1);
    } else {
        assert(v.subrange(0, n) =~= v);
    }
}

} // verus!

verus! {

impl EppWrite {
    /// Whether the write is restoring modified targets.
    pub closed spec fn is_rolling_back(&self) -> bool {
        self.phase == EppPhase::Rollback
    }

    /// How many modified targets are still to be restored.
    pub closed spec fn restores_left(&self) -> nat {
        self.remaining as nat
    }

    /// The targets written so far, each with the value it held before the write.
    pub closed spec fn written(&self) -> Seq<(Seq<char>, Seq<char>)> {
        pair_views(self.modified@)
    }
}

/// Law: a rollback restores exactly the targets that were written, most
/// recent first, each to the value it held before the write, whatever each
/// restore reports, and then the write finishes with an error.
///
/// `states[0]` is the write just after the rollback began (having asked for
/// `acts[0]`); each later state follows from the one before on the event
/// observed for the step it asked for.
pub proof fn lemma_rollback_restores_in_reverse(
    states: Seq<EppWrite>,
    evs: Seq<SysfsEvent>,
    acts: Seq<SysfsActionView>,
)
    requires
        states.len() == evs.len() + 1,
        acts.len() == states.len(),
        states[0].wf(),
        states[0].is_rolling_back(),
        evs.len() == states[0].restores_left(),
        acts[0] == (SysfsActionView::Write {
            path: states[0].written()[states[0].restores_left() - 1].0,
            value: states[0].written()[states[0].restores_left() - 1].1,
        }),
        forall|i: int|
            0 <= i < evs.len() ==> states[i].accepts(#[trigger] evs[i]) && states[i].step_spec(
                evs[i],
                states[i + 1],
                acts[i + 1],
            ),
    ensures
        forall|i: int|
            0 <= i < evs.len() ==> acts[i] == (SysfsActionView::Write {
                path: states[0].written()[evs.len() - 1 - i].0,
                value: states[0].written()[evs.len() - 1 - i].1,
            }),
        acts[evs.len() as int] == SysfsActionView::Done,
        states[evs.len() as int].is_finished(),
        states[evs.len() as int].result() matches Some(Err(_)),
{
    let n = evs.len();
    let m = states[0].modified;
    assert forall|i: int| 0 <= i <= n implies {
        &&& states[i].modified == m
        &&& states[i].remaining == n - i
        &&& (i < n ==> states[i].phase == EppPhase::Rollback && states[i].failure is Some)
        &&& (i < n ==> acts[i] == (SysfsActionView::Write {
            path: pair_views(m@)[n - 1 - i].0,
            value: pair_views(m@)[n - 1 - i].1,
        }))
    } by {
        lemma_rollback_prefix(states, evs, acts, i);
    }
    assert(n > 0);
    lemma_rollback_prefix(states, evs, acts, n - 1);
    let last = states[n as int];
    assert(states[n - 1].accepts(evs[n - 1]));
    assert(states[n - 1].step_spec(evs[n - 1], last, acts[n as int]));
}

proof fn lemma_rollback_prefix(
    states: Seq<EppWrite>,
    evs: Seq<SysfsEvent>,
    acts: Seq<SysfsActionView>,
    i: int,
)
    requires
        states.len() == evs.len() + 1,
        acts.len() == states.len(),
        states[0].wf(),
        states[0].is_rolling_back(),
        evs.len() == states[0].restores_left(),
        acts[0] == (SysfsActionView::Write {
            path: states[0].written()[states[0].restores_left() - 1].0,
            value: states[0].written()[states[0].restores_left() - 1].1,
        }),
        forall|j: int|
            0 <= j < evs.len() ==> states[j].accepts(#[trigger] evs[j]) && states[j].step_spec(
                evs[j],
                states[j + 1],
                acts[j + 1],
            ),
        0 <= i <= evs.len(),
    ensures
        states[i].modified == states[0].modified,
        states[i].remaining == evs.len() - i,
        i < evs.len() ==> states[i].phase == EppPhase::Rollback && states[i].failure is Some,
        i < evs.len() ==> acts[i] == (SysfsActionView::Write {
            path: pair_views(states[0].modified@)[evs.len() - 1 - i].0,
            value: pair_views(states[0].modified@)[evs.len() - 1 - i].1,
        }),
    decreases i,
{
    if i > 0 {
        lemma_rollback_prefix(states, evs, acts, i - 1);
        assert(states[i - 1].accepts(evs[i - 1]));
    }
}

} // verus!

verus! {

/// The boost value written for an enable flag.
pub open spec fn boost_text(enable: bool) -> Seq<char> {
    if enable {
        "1"@
    } else {
        "0"@
    }
}

/// What the content of the boost file means: `1` on, `0` off, after trimming.
pub open spec fn boost_reading(path: Seq<char>, content: Seq<char>, r: Result<bool, CpuEnergyError>) -> bool {
    let t = spec_trim(content);
    if t == "1"@ {
        r == Ok::<bool, CpuEnergyError>(true)
    } else if t == "0"@ {
        r == Ok::<bool, CpuEnergyError>(false)
    } else {
        r matches Err(CpuEnergyError::InvalidValue { path: p, value }) && p@ == path && value@ == t
    }
}

/// The meaning of the content of a boost file.
pub fn parse_boost(path: &str, content: &str) -> (r: Result<bool, CpuEnergyError>)
    ensures
        boost_reading(path@, content@, r),
{
    let t = trim(content);
    if str_eq(t.as_str(), "1") {
        Ok(true)
    } else if str_eq(t.as_str(), "0") {
        Ok(false)
    } else {
        Err(CpuEnergyError::InvalidValue { path: owned(path), value: t })
    }
}

/// The phase of a verified boost write.
#[derive(Debug, PartialEq, Eq, Structural)]
pub enum BoostPhase {
    Start,
    Write,
    ReadBack,
    Finished,
}

/// A write of the global boost flag, verified by reading it back.
#[derive(Debug)]
pub struct BoostWrite {
    path: String,
    value: String,
    phase: BoostPhase,
    outcome: Option<Result<(), CpuEnergyError>>,
}

impl BoostWrite {
    /// The outcome, once the write is finished.
    pub closed spec fn result(&self) -> Option<Result<(), CpuEnergyError>> {
        self.outcome
    }

    /// Whether the write is finished.
    pub closed spec fn is_finished(&self) -> bool {
        self.phase == BoostPhase::Finished
    }

    /// Whether `ev` answers the step that was last requested.
    pub closed spec fn accepts(&self, ev: SysfsEvent) -> bool {
        match self.phase {
            BoostPhase::Start => ev is Start,
            BoostPhase::Write => ev is WriteDone,
            BoostPhase::ReadBack => ev is ReadDone,
            BoostPhase::Finished => true,
        }
    }

    /// The invariant of a boost write.
    pub closed spec fn wf(&self) -> bool {
        self.phase == BoostPhase::Finished <==> self.outcome is Some
    }

    /// A write of `value` to `path`, about to begin.
    pub closed spec fn begins(&self, path: Seq<char>, value: Seq<char>) -> bool {
        self.path@ == path && self.value@ == value && self.phase == BoostPhase::Start
            && self.outcome is None
    }

    /// A write refused with `BoostNotSupported` for `path`, touching nothing.
    pub closed spec fn refused_unsupported(&self, path: Seq<char>) -> bool {
        &&& self.phase == BoostPhase::Finished
        &&& self.outcome matches Some(Err(CpuEnergyError::BoostNotSupported { path: p })) && p@ == path
    }

    /// One step of the write.
    pub closed spec fn step_spec(self, ev: SysfsEvent, new: BoostWrite, a: SysfsActionView) -> bool {
        &&& new.path == self.path
        &&& new.value == self.value
        &&& match self.phase {
            BoostPhase::Finished => new == self && a == SysfsActionView::Done,
            BoostPhase::Start => new.phase == BoostPhase::Write && new.outcome is None
                && a == (SysfsActionView::Write { path: self.path@, value: self.value@ }),
            BoostPhase::Write => match ev {
                SysfsEvent::WriteDone(Ok(())) => new.phase == BoostPhase::ReadBack && new.outcome is None
                    && a == (SysfsActionView::Read { path: self.path@ }),
                SysfsEvent::WriteDone(Err(f)) => {
                    &&& new.phase == BoostPhase::Finished
                    &&& a == SysfsActionView::Done
                    &&& new.outcome matches Some(Err(e)) && is_io_error(
                        e,
                        self.path@,
                        match f {
                            WriteFailure::Open(_) => "open boost for writing"@,
                            WriteFailure::Write(_) => "write boost"@,
                        },
                        failure_message(f@),
                    )
                },
                _ => false,
            },
            BoostPhase::ReadBack => new.phase == BoostPhase::Finished && a == SysfsActionView::Done
                && match ev {
                SysfsEvent::ReadDone(Err(m)) => new.outcome matches Some(Err(e)) && is_io_error(
                    e,
                    self.path@,
                    "readback boost"@,
                    m@,
                ),
                SysfsEvent::ReadDone(Ok(c)) => if spec_trim(c@) == self.value@ {
                    new.outcome == Some(Ok::<(), CpuEnergyError>(()))
                } else {
                    new.outcome matches Some(
                        Err(CpuEnergyError::ReadbackMismatch { path: p, expected, actual }),
                    ) && p@ == self.path@ && expected@ == self.value@ && actual@ == spec_trim(c@)
                },
                _ => false,
            },
        }
    }

    /// The outcome of the write, once it is finished.
    /// Whether the write is finished.
    pub fn finished(&self) -> (r: bool)
        ensures
            r == self.is_finished(),
    {
        self.phase == BoostPhase::Finished
    }

    pub fn outcome(self) -> (r: Option<Result<(), CpuEnergyError>>)
        ensures
            r == self.result(),
            self.wf() ==> (self.is_finished() <==> r is Some),
    {
        self.outcome
    }

    /// Advance the write on what the last requested step showed.
    pub fn step(&mut self, ev: SysfsEvent) -> (a: SysfsAction)
        requires
            old(self).wf(),
            old(self).accepts(ev),
        ensures
            old(self).step_spec(ev, *final(self), a@),
            final(self).wf(),
    {
        match self.phase {
            BoostPhase::Finished => SysfsAction::Done,
            BoostPhase::Start => {
                self.phase = BoostPhase::Write;
                SysfsAction::Write { path: self.path.clone(), value: self.value.clone() }
            },
            BoostPhase::Write => match ev {
                SysfsEvent::WriteDone(Ok(())) => {
                    self.phase = BoostPhase::ReadBack;
                    SysfsAction::Read { path: self.path.clone() }
                },
                SysfsEvent::WriteDone(Err(f)) => {
                    let action = match &f {
                        WriteFailure::Open(_) => "open boost for writing",
                        WriteFailure::Write(_) => "write boost",
                    };
                    let e = CpuEnergyError::IoError {
                        path: self.path.clone(),
                        action,
                        source: f.message(),
                    };
                    self.phase = BoostPhase::Finished;
                    self.outcome = Some(Err(e));
                    SysfsAction::Done
                },
                _ => SysfsAction::Done,
            },
            BoostPhase::ReadBack => {
                let r = match ev {
                    SysfsEvent::ReadDone(Err(m)) => Err(
                        CpuEnergyError::IoError {
                            path: self.path.clone(),
                            action: "readback boost",
                            source: m,
                        },
                    ),
                    SysfsEvent::ReadDone(Ok(c)) => {
                        let actual = trim(c.as_str());
                        if str_eq(actual.as_str(), self.value.as_str()) {
                            Ok(())
                        } else {
                            Err(
                                CpuEnergyError::ReadbackMismatch {
                                    path: self.path.clone(),
                                    expected: self.value.clone(),
                                    actual,
                                },
                            )
                        }
                    },
                    _ => Ok(()),
                };
                self.phase = BoostPhase::Finished;
                self.outcome = Some(r);
                SysfsAction::Done
            },
        }
    }
}

impl CpuEnergyManager {
    /// The path reported when there is no boost interface.
    pub closed spec fn boost_missing_path(&self) -> Seq<char> {
        path_join(self.root@, "sys/devices/system/cpu/cpufreq/boost"@)
    }

    fn boost_missing_error(&self) -> (e: CpuEnergyError)
        ensures
            e matches CpuEnergyError::BoostNotSupported { path } && path@ == self.boost_missing_path(),
    {
        proof {
            reveal_strlit("sys/devices/system/cpu/cpufreq/boost");
            assert(trim_leading("sys/devices/system/cpu/cpufreq/boost"@, '/')
                == "sys/devices/system/cpu/cpufreq/boost"@);
        }
        CpuEnergyError::BoostNotSupported { path: self.sys_path("sys/devices/system/cpu/cpufreq/boost") }
    }

    /// The file to read for the current boost state, or the error when there is none.
    pub fn boost_read_path(&self) -> (r: Result<String, CpuEnergyError>)
        ensures
            match self.caps_spec().boost_path {
                Some(p) => r matches Ok(q) && q@ == p@,
                None => r matches Err(CpuEnergyError::BoostNotSupported { path }) && path@
                    == self.boost_missing_path(),
            },
    {
        match &self.caps.boost_path {
            Some(p) => Ok(p.clone()),
            None => Err(self.boost_missing_error()),
        }
    }

    /// What setting the boost flag starts as: a write of `1` or `0` to the
    /// boost file, or a refusal with `BoostNotSupported` when there is none.
    pub open spec fn starts_boost_write(&self, w: BoostWrite, enable: bool) -> bool {
        match self.caps_spec().boost_path {
            Some(p) => w.begins(p@, boost_text(enable)),
            None => w.refused_unsupported(self.boost_missing_path()),
        }
    }

    /// Begin setting the global CPU boost flag, verified by reading it back.
    /// Without a boost interface the write is refused and touches nothing.
    pub fn set_boost(&self, enable: bool) -> (w: BoostWrite)
        ensures
            w.wf(),
            self.starts_boost_write(w, enable),
    {
        proof {
            reveal_strlit("1");
            reveal_strlit("0");
        }
        match &self.caps.boost_path {
            Some(p) => BoostWrite {
                path: p.clone(),
                value: if enable {
                    owned("1")
                } else {
                    owned("0")
                },
                phase: BoostPhase::Start,
                outcome: None,
            },
            None => BoostWrite {
                path: String::new(),
                value: String::new(),
                phase: BoostPhase::Finished,
                outcome: Some(Err(self.boost_missing_error())),
            },
        }
    }

    /// The file to read for the primary policy's EPP, or the error when there is none.
    pub fn epp_read_path(&self) -> (r: Result<String, CpuEnergyError>)
        ensures
            self.caps_spec().policies@.len() == 0 ==> (r matches Err(
                CpuEnergyError::NoPoliciesFound { search_path },
            ) && search_path@ == self.epp_missing_path()),
            self.caps_spec().policies@.len() > 0 ==> match self.caps_spec().policies@[0].epp_path {
                Some(p) => r matches Ok(q) && q@ == p@,
                None => r matches Err(CpuEnergyError::EppNotSupported { policy }) && policy@
                    == self.caps_spec().policies@[0].path@,
            },
    {
        if self.caps.policies.len() == 0 {
            proof {
                reveal_strlit("sys/devices/system/cpu/cpufreq");
                assert(trim_leading("sys/devices/system/cpu/cpufreq"@, '/')
                    == "sys/devices/system/cpu/cpufreq"@);
            }
            return Err(
                CpuEnergyError::NoPoliciesFound {
                    search_path: self.sys_path("sys/devices/system/cpu/cpufreq"),
                },
            );
        }
        let p = &self.caps.policies[0];
        match &p.epp_path {
            Some(e) => Ok(e.clone()),
            None => Err(CpuEnergyError::EppNotSupported { policy: p.path.clone() }),
        }
    }
}

/// The value of the boost flag in trimmed file content, if it is one.
pub open spec fn boost_value(t: Seq<char>) -> Option<bool> {
    if t == "1"@ {
        Some(true)
    } else if t == "0"@ {
        Some(false)
    } else {
        None
    }
}

/// The meaning of reading the boost file: the flag it holds, or the error.
pub fn boost_read_result(path: &str, read: Result<String, String>) -> (r: Result<bool, CpuEnergyError>)
    ensures
        match read {
            Ok(c) => boost_reading(path@, c@, r),
            Err(m) => r matches Err(e) && is_io_error(e, path@, "read boost"@, m@),
        },
{
    match read {
        Ok(c) => parse_boost(path, c.as_str()),
        Err(m) => Err(CpuEnergyError::IoError { path: owned(path), action: "read boost", source: m }),
    }
}

impl CpuEnergyManager {
    /// The current global boost flag, from what reading the boost file gave
    /// (the reading is ignored when there is no boost file).
    pub fn read_boost(&self, read: Result<String, String>) -> (r: Result<bool, CpuEnergyError>)
        ensures
            match self.caps_spec().boost_path {
                None => r matches Err(CpuEnergyError::BoostNotSupported { path }) && path@
                    == self.boost_missing_path(),
                Some(p) => match read {
                    Ok(c) => boost_reading(p@, c@, r),
                    Err(m) => r matches Err(e) && is_io_error(e, p@, "read boost"@, m@),
                },
            },
    {
        match self.boost_read_path() {
            Ok(p) => boost_read_result(p.as_str(), read),
            Err(e) => Err(e),
        }
    }

    /// The active EPP of the primary policy, from what reading its EPP file
    /// gave (the reading is ignored when there is no such file).
    pub fn read_epp(&self, read: Result<String, String>) -> (r: Result<String, CpuEnergyError>)
        requires
            self.wf(),
        ensures
            match self.caps_spec().policies@[0].epp_path {
                None => r matches Err(CpuEnergyError::EppNotSupported { policy }) && policy@
                    == self.caps_spec().policies@[0].path@,
                Some(p) => match read {
                    Ok(c) => r matches Ok(v) && v@ == spec_trim(c@),
                    Err(m) => r matches Err(e) && is_io_error(e, p@, "read EPP"@, m@),
                },
            },
    {
        match self.epp_read_path() {
            Ok(p) => epp_reading(p.as_str(), read),
            Err(e) => Err(e),
        }
    }
}

/// What reading every EPP file gives, for the files in order and what
/// reading each gave: each file with its trimmed value, up to the first
/// failed read, which gives its I/O error.
pub open spec fn epp_values(
    targets: Seq<Seq<char>>,
    reads: Seq<Result<String, String>>,
) -> Result<Seq<(Seq<char>, Seq<char>)>, (Seq<char>, Seq<char>)>
    decreases targets.len(),
{
    if targets.len() == 0 || reads.len() == 0 {
        Ok(seq![])
    } else {
        match reads[0] {
            Err(m) => Err((targets[0], m@)),
            Ok(c) => match epp_values(targets.drop_first(), reads.drop_first()) {
                Ok(rest) => Ok(seq![(targets[0], spec_trim(c@))] + rest),
                Err(e) => Err(e),
            },
        }
    }
}

impl CpuEnergyManager {
    /// The active EPP of every policy that exposes one, from what reading
    /// the files of `epp_paths`, in order, gave: each file with its trimmed
    /// value; the first failed read gives its I/O error; without any EPP
    /// file the error is `EppNotSupported`.
    pub fn read_epp_all(&self, reads: &Vec<Result<String, String>>) -> (r: Result<
        Vec<(String, String)>,
        CpuEnergyError,
    >)
        requires
            reads@.len() == epp_targets(self.caps_spec().policies@).len(),
        ensures
            match epp_values(epp_targets(self.caps_spec().policies@), reads@) {
                Err((p, m)) => r matches Err(e) && is_io_error(e, p, "read EPP"@, m),
                Ok(v) => if v.len() == 0 {
                    r matches Err(CpuEnergyError::EppNotSupported { policy }) && policy@
                        == self.epp_missing_path()
                } else {
                    r matches Ok(w) && pair_views(w@) == v
                },
            },
    {
        let targets = self.epp_paths();
        let mut out: Vec<(String, String)> = Vec::new();
        let mut i: usize = 0;
        assert(views(targets@).skip(0) =~= views(targets@));
        assert(reads@.skip(0) =~= reads@);
        assert(targets@.len() == views(targets@).len());
        while i < targets.len()
            invariant
                i <= targets@.len(),
                targets@.len() == reads@.len(),
                views(targets@) == epp_targets(self.caps_spec().policies@),
                epp_values(views(targets@), reads@) == match epp_values(
                    views(targets@).skip(i as int),
                    reads@.skip(i as int),
                ) {
                    Ok(rest) => Ok(pair_views(out@) + rest),
                    Err(e) => Err(e),
                },
            decreases targets.len() - i,
        {
            assert(views(targets@).skip(i as int).drop_first() =~= views(targets@).skip(i + 1));
            assert(reads@.skip(i as int).drop_first() =~= reads@.skip(i + 1));
            assert(views(targets@).skip(i as int)[0] == targets@[i as int]@);
            match &reads[i] {
                Err(m) => {
                    return Err(
                        CpuEnergyError::IoError {
                            path: targets[i].clone(),
                            action: "read EPP",
                            source: m.clone(),
                        },
                    );
                },
                Ok(c) => {
                    let ghost before = pair_views(out@);
                    out.push((targets[i].clone(), trim(c.as_str())));
                    assert(pair_views(out@) =~= before.push((targets@[i as int]@, spec_trim(c@))));
                    proof {
                        let rest = epp_values(views(targets@).skip(i + 1), reads@.skip(i + 1));
                        if let Ok(rv) = rest {
                            assert(before + (seq![(targets@[i as int]@, spec_trim(c@))] + rv)
                                =~= pair_views(out@) + rv);
                        }
                    }
                },
            }
            i = i + 1;
        }
        assert(views(targets@).skip(i as int) =~= seq![]);
        assert(pair_views(out@) + seq![] =~= pair_views(out@));
        if out.len() == 0 {
            return Err(self.epp_missing_error());
        }
        Ok(out)
    }
}

/// The meaning of reading an EPP file: its trimmed content, or an I/O error.
pub fn epp_reading(path: &str, read: Result<String, String>) -> (r: Result<String, CpuEnergyError>)
    ensures
        match read {
            Ok(c) => r matches Ok(v) && v@ == spec_trim(c@),
            Err(m) => r matches Err(e) && is_io_error(e, path@, "read EPP"@, m@),
        },
{
    match read {
        Ok(c) => Ok(trim(c.as_str())),
        Err(m) => Err(CpuEnergyError::IoError { path: owned(path), action: "read EPP", source: m }),
    }
}

} // verus!

verus! {

/// The phase of a snapshot read.
#[derive(Debug, PartialEq, Eq, Structural)]
pub enum SnapshotPhase {
    Start,
    ReadBoost,
    ReadEpp,
    Finished,
}

/// A read of the current boost flag and of every policy's EPP value.
/// A boost read failure fails the snapshot; an EPP read failure leaves the
/// snapshot without EPP values.
#[derive(Debug)]
pub struct SnapshotRead {
    boost_path: Option<String>,
    targets: Vec<String>,
    idx: usize,
    boost: Option<bool>,
    epps: Vec<(String, String)>,
    phase: SnapshotPhase,
    outcome: Option<Result<CpuEnergySnapshot, CpuEnergyError>>,
}

impl SnapshotRead {
    pub closed spec fn result(&self) -> Option<Result<CpuEnergySnapshot, CpuEnergyError>> {
        self.outcome
    }

    pub closed spec fn is_finished(&self) -> bool {
        self.phase == SnapshotPhase::Finished
    }

    pub closed spec fn accepts(&self, ev: SysfsEvent) -> bool {
        match self.phase {
            SnapshotPhase::Start => ev is Start,
            SnapshotPhase::ReadBoost | SnapshotPhase::ReadEpp => ev is ReadDone,
            SnapshotPhase::Finished => true,
        }
    }

    pub closed spec fn wf(&self) -> bool {
        &&& self.idx <= self.targets@.len()
        &&& self.phase == SnapshotPhase::ReadEpp ==> self.idx < self.targets@.len()
        &&& self.phase == SnapshotPhase::ReadBoost ==> self.boost_path is Some
        &&& self.phase == SnapshotPhase::Finished <==> self.outcome is Some
    }

    /// A snapshot of the boost file `boost` (if any) and of `targets`, about to begin.
    pub closed spec fn begins(&self, boost: Option<Seq<char>>, targets: Seq<Seq<char>>) -> bool {
        &&& opt_view(self.boost_path) == boost
        &&& views(self.targets@) == targets
        &&& self.idx == 0
        &&& self.boost is None
        &&& self.epps@.len() == 0
        &&& self.phase == SnapshotPhase::Start
        &&& self.outcome is None
    }

    /// `new` reads EPP target `k`, or finishes with the values read so far.
    closed spec fn at_epp(self, new: SnapshotRead, k: int, epps: Seq<(String, String)>, a: SysfsActionView) -> bool {
        &&& new.idx == k
        &&& new.epps@ == epps
        &&& if k < self.targets@.len() {
            &&& new.phase == SnapshotPhase::ReadEpp
            &&& new.outcome is None
            &&& a == SysfsActionView::Read { path: self.targets@[k]@ }
        } else {
            &&& new.phase == SnapshotPhase::Finished
            &&& a == SysfsActionView::Done
            &&& new.outcome matches Some(Ok(snap)) && snap.boost == new.boost && pair_views(
                snap.policy_epps@,
            ) == pair_views(epps)
        }
    }

    /// One step of the snapshot.
    pub closed spec fn step_spec(self, ev: SysfsEvent, new: SnapshotRead, a: SysfsActionView) -> bool {
        &&& new.boost_path == self.boost_path
        &&& new.targets == self.targets
        &&& match self.phase {
            SnapshotPhase::Finished => new == self && a == SysfsActionView::Done,
            SnapshotPhase::Start => match self.boost_path {
                Some(p) => new.phase == SnapshotPhase::ReadBoost && new.outcome is None && new.idx
                    == self.idx && new.boost == self.boost && new.epps == self.epps && a == (
                SysfsActionView::Read { path: p@ }),
                None => new.boost == self.boost && self.at_epp(new, 0, self.epps@, a),
            },
            SnapshotPhase::ReadBoost => {
                let p = self.boost_path->0@;
                match ev {
                    SysfsEvent::ReadDone(Err(m)) => {
                        &&& new.phase == SnapshotPhase::Finished
                        &&& a == SysfsActionView::Done
                        &&& new.outcome matches Some(Err(e)) && is_io_error(e, p, "read boost"@, m@)
                    },
                    SysfsEvent::ReadDone(Ok(c)) => exists|r: Result<bool, CpuEnergyError>|
                        #[trigger] boost_reading(p, c@, r) && match r {
                            Ok(b) => new.boost == Some(b) && self.at_epp(new, 0, self.epps@, a),
                            Err(e) => new.phase == SnapshotPhase::Finished && a
                                == SysfsActionView::Done && new.outcome == Some(
                                Err::<CpuEnergySnapshot, CpuEnergyError>(e),
                            ),
                        },
                    _ => false,
                }
            },
            SnapshotPhase::ReadEpp => {
                &&& new.boost == self.boost
                &&& match ev {
                    SysfsEvent::ReadDone(Err(_)) => {
                        &&& new.phase == SnapshotPhase::Finished
                        &&& a == SysfsActionView::Done
                        &&& new.outcome matches Some(Ok(snap)) && snap.boost == self.boost
                            && snap.policy_epps@.len() == 0
                    },
                    SysfsEvent::ReadDone(Ok(c)) => exists|v: String|
                        #[trigger] v@ == spec_trim(c@) && self.at_epp(
                            new,
                            self.idx + 1,
                            self.epps@.push((self.targets@[self.idx as int], v)),
                            a,
                        ),
                    _ => false,
                }
            },
        }
    }

    /// Whether the snapshot is finished.
    pub fn finished(&self) -> (r: bool)
        ensures
            r == self.is_finished(),
    {
        self.phase == SnapshotPhase::Finished
    }

    pub fn outcome(self) -> (r: Option<Result<CpuEnergySnapshot, CpuEnergyError>>)
        ensures
            r == self.result(),
            self.wf() ==> (self.is_finished() <==> r is Some),
    {
        self.outcome
    }

    fn go_epp(&mut self, k: usize) -> (a: SysfsAction)
        requires
            k <= old(self).targets@.len(),
        ensures
            old(self).at_epp(*final(self), k as int, old(self).epps@, a@),
            final(self).boost_path == old(self).boost_path,
            final(self).targets == old(self).targets,
            final(self).boost == old(self).boost,
    {
        self.idx = k;
        if k < self.targets.len() {
            self.phase = SnapshotPhase::ReadEpp;
            self.outcome = None;
            SysfsAction::Read { path: self.targets[k].clone() }
        } else {
            let mut epps: Vec<(String, String)> = Vec::new();
            std::mem::swap(&mut epps, &mut self.epps);
            let ghost taken = epps@;
            let snap = CpuEnergySnapshot { boost: self.boost, policy_epps: epps };
            self.epps = clone_pairs(&snap.policy_epps);
            self.phase = SnapshotPhase::Finished;
            self.outcome = Some(Ok(snap));
            SysfsAction::Done
        }
    }

    /// Advance the snapshot on what the last requested step showed.
    pub fn step(&mut self, ev: SysfsEvent) -> (a: SysfsAction)
        requires
            old(self).wf(),
            old(self).accepts(ev),
        ensures
            old(self).step_spec(ev, *final(self), a@),
            final(self).wf(),
    {
        let ghost ev_copy = ev;
        match self.phase {
            SnapshotPhase::Finished => SysfsAction::Done,
            SnapshotPhase::Start => match &self.boost_path {
                Some(p) => {
                    let p = p.clone();
                    self.phase = SnapshotPhase::ReadBoost;
                    SysfsAction::Read { path: p }
                },
                None => self.go_epp(0),
            },
            SnapshotPhase::ReadBoost => {
                let p = match &self.boost_path {
                    Some(p) => p.clone(),
                    None => String::new(),
                };
                match ev {
                    SysfsEvent::ReadDone(Err(m)) => {
                        self.phase = SnapshotPhase::Finished;
                        self.outcome = Some(
                            Err(CpuEnergyError::IoError { path: p, action: "read boost", source: m }),
                        );
                        SysfsAction::Done
                    },
                    SysfsEvent::ReadDone(Ok(c)) => {
                        let r = parse_boost(p.as_str(), c.as_str());
                        let ghost gr = r;
                        match r {
                            Ok(b) => {
                                self.boost = Some(b);
                                let a = self.go_epp(0);
                                assert(boost_reading(self.boost_path->0@, ev_copy->ReadDone_0->Ok_0@, gr));
                                a
                            },
                            Err(e) => {
                                self.phase = SnapshotPhase::Finished;
                                self.outcome = Some(Err(e));
                                assert(boost_reading(self.boost_path->0@, ev_copy->ReadDone_0->Ok_0@, gr));
                                SysfsAction::Done
                            },
                        }
                    },
                    _ => SysfsAction::Done,
                }
            },
            SnapshotPhase::ReadEpp => {
                let n = self.targets.len();
                assert(self.idx < n);
                match ev {
                    SysfsEvent::ReadDone(Err(_)) => {
                        self.phase = SnapshotPhase::Finished;
                        self.outcome = Some(
                            Ok(CpuEnergySnapshot { boost: self.boost, policy_epps: Vec::new() }),
                        );
                        SysfsAction::Done
                    },
                    SysfsEvent::ReadDone(Ok(c)) => {
                        let v = trim(c.as_str());
                        let ghost gv = v;
                        let ghost before = *self;
                        self.epps.push((self.targets[self.idx].clone(), v));
                        let k = self.idx + 1;
                        let a = self.go_epp(k);
                        assert(before.at_epp(*self, k as int, before.epps@.push((before.targets@[before.idx as int], gv)), a@));
                        a
                    },
                    _ => SysfsAction::Done,
                }
            },
        }
    }
}

/// A copy of a list of (path, value) pairs.
pub fn clone_pairs(v: &Vec<(String, String)>) -> (r: Vec<(String, String)>)
    ensures
        r@ == v@,
{
    let mut r: Vec<(String, String)> = Vec::new();
    let mut i: usize = 0;
    while i < v.len()
        invariant
            i <= v.len(),
            r@ == v@.subrange(0, i as int),
        decreases v.len() - i,
    {
        r.push((v[i].0.clone(), v[i].1.clone()));
        i = i + 1;
        assert(r@ =~= v@.subrange(0, i as int));
    }
    assert(v@.subrange(0, v@.len() as int) =~= v@);
    r
}

impl CpuEnergyManager {
    /// The EPP files of all policies that expose one, in policy order.
    pub fn epp_paths(&self) -> (r: Vec<String>)
        ensures
            views(r@) == epp_targets(self.caps_spec().policies@),
    {
        let policies = &self.caps.policies;
        let mut targets: Vec<String> = Vec::new();
        let mut i: usize = 0;
        assert(policies@.subrange(0, 0) =~= seq![]);
        assert(views(targets@) =~= seq![]);
        while i < policies.len()
            invariant
                i <= policies.len(),
                views(targets@) == epp_targets(policies@.subrange(0, i as int)),
            decreases policies.len() - i,
        {
            let ghost pre = policies@.subrange(0, i as int);
            let ghost nxt = policies@.subrange(0, i + 1);
            assert(nxt.drop_last() =~= pre);
            match &policies[i].epp_path {
                Some(ep) => {
                    let ghost tv = views(targets@);
                    targets.push(ep.clone());
                    assert(views(targets@) =~= tv.push(ep@));
                },
                None => {},
            }
            i = i + 1;
        }
        assert(policies@.subrange(0, policies@.len() as int) =~= policies@);
        targets
    }

    /// What a snapshot starts as: a read of the boost file (when boost is
    /// supported) and of every EPP file, in policy order.
    pub open spec fn starts_snapshot(&self, s: SnapshotRead) -> bool {
        s.begins(
            if self.caps_spec().has_boost {
                opt_view(self.caps_spec().boost_path)
            } else {
                None
            },
            epp_targets(self.caps_spec().policies@),
        )
    }

    /// Begin capturing the current boost flag (when boost is supported) and
    /// the EPP value of every policy that exposes one.
    pub fn snapshot(&self) -> (s: SnapshotRead)
        ensures
            s.wf(),
            self.starts_snapshot(s),
    {
        let boost_path = if self.caps.has_boost {
            clone_opt(&self.caps.boost_path)
        } else {
            None
        };
        SnapshotRead {
            boost_path,
            targets: self.epp_paths(),
            idx: 0,
            boost: None,
            epps: Vec::new(),
            phase: SnapshotPhase::Start,
            outcome: None,
        }
    }
}

} // verus!

verus! {

/// The phase of a restore.
#[derive(Debug, PartialEq, Eq, Structural)]
pub enum RestorePhase {
    Start,
    WriteEpp,
    Boost,
    Finished,
}

/// A restore of a snapshot: every captured EPP value is written back, in
/// snapshot order, stopping at the first failure; then, when the snapshot
/// holds a boost flag and boost is supported, the flag is set back.
#[derive(Debug)]
pub struct RestoreWrite {
    entries: Vec<(String, String)>,
    idx: usize,
    boost: Option<BoostWrite>,
    handed_over: bool,
    phase: RestorePhase,
    outcome: Option<Result<(), CpuEnergyError>>,
}

impl RestoreWrite {
    pub closed spec fn result(&self) -> Option<Result<(), CpuEnergyError>> {
        if self.handed_over && self.boost is Some {
            self.boost->0.result()
        } else {
            self.outcome
        }
    }

    pub closed spec fn is_finished(&self) -> bool {
        self.phase == RestorePhase::Finished
    }

    pub closed spec fn accepts(&self, ev: SysfsEvent) -> bool {
        match self.phase {
            RestorePhase::Start => ev is Start,
            RestorePhase::WriteEpp => ev is WriteDone,
            RestorePhase::Boost => self.boost is Some && self.boost->0.accepts(ev),
            RestorePhase::Finished => true,
        }
    }

    pub closed spec fn wf(&self) -> bool {
        &&& self.idx <= self.entries@.len()
        &&& self.phase == RestorePhase::WriteEpp ==> self.idx < self.entries@.len()
        &&& self.phase == RestorePhase::Boost ==> self.boost is Some && self.boost->0.wf()
            && !self.boost->0.is_finished()
        &&& (self.phase == RestorePhase::Start || self.phase == RestorePhase::WriteEpp) ==> (
        self.boost is Some ==> self.boost->0.wf() && !self.boost->0.is_finished()
            && self.boost->0.accepts(SysfsEvent::Start))
        &&& self.phase == RestorePhase::Finished <==> self.result() is Some
        &&& self.handed_over ==> self.boost is Some && self.phase == RestorePhase::Finished
    }

    /// The (path, value) pairs that this restore writes, in order.
    pub closed spec fn writes(&self) -> Seq<(Seq<char>, Seq<char>)> {
        pair_views(self.entries@)
    }

    /// The boost write that follows the EPP writes, if any.
    pub closed spec fn boost_restore(&self) -> Option<BoostWrite> {
        self.boost
    }

    /// Whether nothing has been asked for yet.
    pub closed spec fn at_start(&self) -> bool {
        self.phase == RestorePhase::Start
    }

    /// `new` writes entry `k`, or hands over to the boost write, or finishes.
    closed spec fn at_entry(self, new: RestoreWrite, k: int, a: SysfsActionView) -> bool {
        &&& new.idx == k
        &&& if k < self.entries@.len() {
            &&& new.boost == self.boost
            &&& !new.handed_over
            &&& new.phase == RestorePhase::WriteEpp
            &&& new.outcome is None
            &&& a == SysfsActionView::Write {
                path: self.entries@[k].0@,
                value: self.entries@[k].1@,
            }
        } else {
            match self.boost {
                Some(b) => new.boost is Some && b.step_spec(SysfsEvent::Start, new.boost->0, a)
                    && new.outcome is None && if new.boost->0.is_finished() {
                    new.phase == RestorePhase::Finished && new.handed_over
                } else {
                    new.phase == RestorePhase::Boost && !new.handed_over
                },
                None => new.boost is None && !new.handed_over && new.phase == RestorePhase::Finished
                    && new.outcome == Some(Ok::<(), CpuEnergyError>(())) && a == SysfsActionView::Done,
            }
        }
    }

    /// One step of the restore.
    pub closed spec fn step_spec(self, ev: SysfsEvent, new: RestoreWrite, a: SysfsActionView) -> bool {
        &&& new.entries == self.entries
        &&& match self.phase {
            RestorePhase::Finished => new == self && a == SysfsActionView::Done,
            RestorePhase::Start => self.at_entry(new, 0, a),
            RestorePhase::WriteEpp => {
                let p = self.entries@[self.idx as int].0@;
                match ev {
                    SysfsEvent::WriteDone(Ok(())) => self.at_entry(new, self.idx + 1, a),
                    SysfsEvent::WriteDone(Err(f)) => {
                        &&& new.phase == RestorePhase::Finished
                        &&& !new.handed_over
                        &&& a == SysfsActionView::Done
                        &&& new.outcome matches Some(Err(e)) && is_io_error(
                            e,
                            p,
                            match f {
                                WriteFailure::Open(_) => "restore EPP"@,
                                WriteFailure::Write(_) => "write restore EPP"@,
                            },
                            failure_message(f@),
                        )
                    },
                    _ => false,
                }
            },
            RestorePhase::Boost => {
                &&& new.idx == self.idx
                &&& new.boost is Some
                &&& self.boost->0.step_spec(ev, new.boost->0, a)
                &&& new.outcome is None
                &&& if new.boost->0.is_finished() {
                    new.phase == RestorePhase::Finished && new.handed_over
                } else {
                    new.phase == RestorePhase::Boost && !new.handed_over
                }
            },
        }
    }

    /// Whether the restore is finished.
    pub fn finished(&self) -> (r: bool)
        ensures
            r == self.is_finished(),
    {
        self.phase == RestorePhase::Finished
    }

    pub fn outcome(self) -> (r: Option<Result<(), CpuEnergyError>>)
        ensures
            r == self.result(),
            self.wf() ==> (self.is_finished() <==> r is Some),
    {
        if self.handed_over {
            match self.boost {
                Some(b) => b.outcome(),
                None => self.outcome,
            }
        } else {
            self.outcome
        }
    }

    fn go_entry(&mut self, k: usize) -> (a: SysfsAction)
        requires
            k <= old(self).entries@.len(),
            old(self).boost is Some ==> old(self).boost->0.wf() && !old(self).boost->0.is_finished()
                && old(self).boost->0.accepts(SysfsEvent::Start),
        ensures
            old(self).at_entry(*final(self), k as int, a@),
            final(self).entries == old(self).entries,
            final(self).wf(),
    {
        self.idx = k;
        self.handed_over = false;
        if k < self.entries.len() {
            self.phase = RestorePhase::WriteEpp;
            self.outcome = None;
            SysfsAction::Write { path: self.entries[k].0.clone(), value: self.entries[k].1.clone() }
        } else {
            match &mut self.boost {
                Some(b) => {
                    let a = b.step(SysfsEvent::Start);
                    self.outcome = None;
                    if b.phase == BoostPhase::Finished {
                        self.phase = RestorePhase::Finished;
                        self.handed_over = true;
                    } else {
                        self.phase = RestorePhase::Boost;
                    }
                    a
                },
                None => {
                    self.phase = RestorePhase::Finished;
                    self.outcome = Some(Ok(()));
                    SysfsAction::Done
                },
            }
        }
    }

    /// Advance the restore on what the last requested step showed.
    pub fn step(&mut self, ev: SysfsEvent) -> (a: SysfsAction)
        requires
            old(self).wf(),
            old(self).accepts(ev),
        ensures
            old(self).step_spec(ev, *final(self), a@),
            final(self).wf(),
    {
        match self.phase {
            RestorePhase::Finished => SysfsAction::Done,
            RestorePhase::Start => self.go_entry(0),
            RestorePhase::WriteEpp => {
                let n = self.entries.len();
                assert(self.idx < n);
                match ev {
                    SysfsEvent::WriteDone(Ok(())) => {
                        let k = self.idx + 1;
                        self.go_entry(k)
                    },
                    SysfsEvent::WriteDone(Err(f)) => {
                        let action = match &f {
                            WriteFailure::Open(_) => "restore EPP",
                            WriteFailure::Write(_) => "write restore EPP",
                        };
                        let e = CpuEnergyError::IoError {
                            path: self.entries[self.idx].0.clone(),
                            action,
                            source: f.message(),
                        };
                        self.phase = RestorePhase::Finished;
                        self.outcome = Some(Err(e));
                        SysfsAction::Done
                    },
                    _ => SysfsAction::Done,
                }
            },
            RestorePhase::Boost => match &mut self.boost {
                Some(b) => {
                    let a = b.step(ev);
                    if b.phase == BoostPhase::Finished {
                        self.phase = RestorePhase::Finished;
                        self.handed_over = true;
                    }
                    a
                },
                None => SysfsAction::Done,
            },
        }
    }
}

impl CpuEnergyManager {
    /// What a restore of `snapshot` starts as: a write of every captured EPP
    /// value back to its file, in snapshot order.
    pub open spec fn starts_restore(&self, w: RestoreWrite, snapshot: CpuEnergySnapshot) -> bool {
        &&& !w.is_finished()
        &&& w.at_start()
        &&& w.writes() == pair_views(snapshot.policy_epps@)
        &&& match snapshot.boost {
            Some(b) => if self.caps_spec().has_boost {
                w.boost_restore() matches Some(bw) && self.starts_boost_write(bw, b)
            } else {
                w.boost_restore() is None
            },
            None => w.boost_restore() is None,
        }
    }

    /// Begin restoring a previously captured snapshot.
    pub fn restore(&self, snapshot: &CpuEnergySnapshot) -> (w: RestoreWrite)
        requires
            self.wf(),
        ensures
            w.wf(),
            self.starts_restore(w, *snapshot),
    {
        let boost = match snapshot.boost {
            Some(b) => if self.caps.has_boost {
                Some(self.set_boost(b))
            } else {
                None
            },
            None => None,
        };
        RestoreWrite {
            entries: clone_pairs(&snapshot.policy_epps),
            idx: 0,
            boost,
            handed_over: false,
            phase: RestorePhase::Start,
            outcome: None,
        }
    }
}

} // verus!

verus! {

/// How long a governor wait sleeps between two scans, in milliseconds.
pub open spec fn governor_poll_ms() -> u64 {
    10
}

/// The phase of a governor wait.
#[derive(Debug, PartialEq, Eq, Structural)]
pub enum GovernorPhase {
    Start,
    Scan,
    Sleep,
    Finished,
}

/// A bounded wait until no cpufreq governor keeps an EPP value from being
/// written. A `performance` governor locks EPP to `performance`; so when any
/// other EPP value is wanted, the `scaling_governor` file of every policy
/// with an EPP interface is read (a policy whose file cannot be read does
/// not block), and while some policy reads `performance` the wait sleeps and
/// scans again, until the timeout has elapsed.
#[derive(Debug)]
pub struct GovernorWait {
    epp: String,
    policies: Vec<(String, String)>,
    idx: usize,
    timeout_ms: u64,
    elapsed_ms: u64,
    blocked: Option<(String, String)>,
    phase: GovernorPhase,
    outcome: Option<Result<(), CpuEnergyError>>,
}

impl GovernorWait {
    pub closed spec fn result(&self) -> Option<Result<(), CpuEnergyError>> {
        self.outcome
    }

    pub closed spec fn is_finished(&self) -> bool {
        self.phase == GovernorPhase::Finished
    }

    pub closed spec fn accepts(&self, ev: SysfsEvent) -> bool {
        match self.phase {
            GovernorPhase::Start => ev is Start,
            GovernorPhase::Scan => ev is ReadDone,
            GovernorPhase::Sleep => ev is Slept,
            GovernorPhase::Finished => true,
        }
    }

    /// A wait for `epp` over `files`, giving up after `timeout_ms`, about to begin.
    pub closed spec fn begins(&self, epp: Seq<char>, files: Seq<(Seq<char>, Seq<char>)>, timeout_ms: u64) -> bool {
        &&& self.epp@ == epp
        &&& pair_views(self.policies@) == files
        &&& self.timeout_ms == timeout_ms
        &&& self.elapsed_ms == 0
        &&& self.idx == 0
        &&& self.blocked is None
        &&& self.phase == GovernorPhase::Start
        &&& self.outcome is None
    }

    pub closed spec fn wf(&self) -> bool {
        &&& self.idx <= self.policies@.len()
        &&& self.phase == GovernorPhase::Scan ==> self.idx < self.policies@.len()
        &&& self.phase == GovernorPhase::Finished <==> self.outcome is Some
    }

    /// `new` scans policy `k` with `blocked` found so far; once every policy
    /// is scanned it succeeds when none blocks, gives up when the timeout
    /// has elapsed, and sleeps otherwise.
    closed spec fn scan_from(self, new: GovernorWait, k: int, blocked: Option<(String, String)>, a: SysfsActionView) -> bool {
        &&& new.idx == k
        &&& new.blocked == blocked
        &&& new.elapsed_ms == self.elapsed_ms
        &&& if k < self.policies@.len() {
            &&& new.phase == GovernorPhase::Scan
            &&& new.outcome is None
            &&& a == SysfsActionView::Read { path: self.policies@[k].1@ }
        } else {
            match blocked {
                None => new.phase == GovernorPhase::Finished && new.outcome == Some(
                    Ok::<(), CpuEnergyError>(()),
                ) && a == SysfsActionView::Done,
                Some(b) => if self.elapsed_ms >= self.timeout_ms {
                    &&& new.phase == GovernorPhase::Finished
                    &&& a == SysfsActionView::Done
                    &&& new.outcome matches Some(
                        Err(CpuEnergyError::GovernorTimeout { target_epp, policy, governor, waited_ms }),
                    ) && target_epp@ == self.epp@ && policy@ == b.0@ && governor@ == b.1@
                        && waited_ms == self.elapsed_ms
                } else {
                    &&& new.phase == GovernorPhase::Sleep
                    &&& new.outcome is None
                    &&& a == SysfsActionView::Sleep { ms: governor_poll_ms() }
                },
            }
        }
    }

    /// One step of the wait.
    pub closed spec fn step_spec(self, ev: SysfsEvent, new: GovernorWait, a: SysfsActionView) -> bool {
        &&& new.epp == self.epp
        &&& new.policies == self.policies
        &&& new.timeout_ms == self.timeout_ms
        &&& match self.phase {
            GovernorPhase::Finished => new == self && a == SysfsActionView::Done,
            GovernorPhase::Start => if self.epp@ == "performance"@ {
                new.phase == GovernorPhase::Finished && new.outcome == Some(
                    Ok::<(), CpuEnergyError>(()),
                ) && a == SysfsActionView::Done
            } else {
                self.scan_from(new, 0, None, a)
            },
            GovernorPhase::Scan => match ev {
                SysfsEvent::ReadDone(Ok(c)) => if self.blocked is None && spec_trim(c@)
                    == "performance"@ {
                    exists|g: String|
                        #[trigger] g@ == spec_trim(c@) && self.scan_from(
                            new,
                            self.idx + 1,
                            Some((self.policies@[self.idx as int].0, g)),
                            a,
                        )
                } else {
                    self.scan_from(new, self.idx + 1, self.blocked, a)
                },
                SysfsEvent::ReadDone(Err(_)) => self.scan_from(new, self.idx + 1, self.blocked, a),
                _ => false,
            },
            GovernorPhase::Sleep => match ev {
                SysfsEvent::Slept { elapsed_ms } => {
                    let after = GovernorWait { elapsed_ms, ..self };
                    after.scan_from(new, 0, None, a)
                },
                _ => false,
            },
        }
    }

    /// Whether the wait is finished.
    pub fn finished(&self) -> (r: bool)
        ensures
            r == self.is_finished(),
    {
        self.phase == GovernorPhase::Finished
    }

    pub fn outcome(self) -> (r: Option<Result<(), CpuEnergyError>>)
        ensures
            r == self.result(),
            self.wf() ==> (self.is_finished() <==> r is Some),
    {
        self.outcome
    }

    fn scan(&mut self, k: usize, blocked: Option<(String, String)>) -> (a: SysfsAction)
        requires
            k <= old(self).policies@.len(),
        ensures
            old(self).scan_from(*final(self), k as int, blocked, a@),
            final(self).epp == old(self).epp,
            final(self).policies == old(self).policies,
            final(self).timeout_ms == old(self).timeout_ms,
            final(self).wf(),
    {
        self.idx = k;
        if k < self.policies.len() {
            self.blocked = blocked;
            self.phase = GovernorPhase::Scan;
            self.outcome = None;
            return SysfsAction::Read { path: self.policies[k].1.clone() };
        }
        match blocked {
            None => {
                self.blocked = None;
                self.phase = GovernorPhase::Finished;
                self.outcome = Some(Ok(()));
                SysfsAction::Done
            },
            Some(b) => {
                if self.elapsed_ms >= self.timeout_ms {
                    let e = CpuEnergyError::GovernorTimeout {
                        target_epp: self.epp.clone(),
                        policy: b.0.clone(),
                        governor: b.1.clone(),
                        waited_ms: self.elapsed_ms,
                    };
                    self.blocked = Some(b);
                    self.phase = GovernorPhase::Finished;
                    self.outcome = Some(Err(e));
                    SysfsAction::Done
                } else {
                    self.blocked = Some(b);
                    self.phase = GovernorPhase::Sleep;
                    self.outcome = None;
                    SysfsAction::Sleep { ms: 10 }
                }
            },
        }
    }

    /// Advance the wait on what the last requested step showed.
    pub fn step(&mut self, ev: SysfsEvent) -> (a: SysfsAction)
        requires
            old(self).wf(),
            old(self).accepts(ev),
        ensures
            old(self).step_spec(ev, *final(self), a@),
            final(self).wf(),
    {
        match self.phase {
            GovernorPhase::Finished => SysfsAction::Done,
            GovernorPhase::Start => {
                proof {
                    reveal_strlit("performance");
                }
                if str_eq(self.epp.as_str(), "performance") {
                    self.phase = GovernorPhase::Finished;
                    self.outcome = Some(Ok(()));
                    SysfsAction::Done
                } else {
                    self.scan(0, None)
                }
            },
            GovernorPhase::Scan => {
                let n = self.policies.len();
                assert(self.idx < n);
                let k = self.idx + 1;
                match ev {
                    SysfsEvent::ReadDone(Ok(c)) => {
                        let g = trim(c.as_str());
                        let is_none = match &self.blocked {
                            None => true,
                            Some(_) => false,
                        };
                        if is_none && str_eq(g.as_str(), "performance") {
                            let ghost gg = g;
                            let ghost before = *self;
                            let b = Some((self.policies[self.idx].0.clone(), g));
                            let a = self.scan(k, b);
                            assert(gg@ == spec_trim(ev->ReadDone_0->Ok_0@));
                            a
                        } else {
                            let b = take_blocked(&mut self.blocked);
                            self.scan(k, b)
                        }
                    },
                    _ => {
                        let b = take_blocked(&mut self.blocked);
                        self.scan(k, b)
                    },
                }
            },
            GovernorPhase::Sleep => match ev {
                SysfsEvent::Slept { elapsed_ms } => {
                    self.elapsed_ms = elapsed_ms;
                    self.scan(0, None)
                },
                _ => SysfsAction::Done,
            },
        }
    }
}

/// The directories of the policies that expose EPP, each with its
/// `scaling_governor` file, in policy order.
pub open spec fn governor_files(v: Seq<PolicyInfo>) -> Seq<(Seq<char>, Seq<char>)>
    decreases v.len(),
{
    if v.len() == 0 {
        seq![]
    } else {
        let rest = governor_files(v.drop_last());
        if v.last().epp_path is Some {
            rest.push((v.last().path@, path_join(v.last().path@, "scaling_governor"@)))
        } else {
            rest
        }
    }
}

/// Move the first blocking policy out, leaving `None`.
fn take_blocked(b: &mut Option<(String, String)>) -> (r: Option<(String, String)>)
    ensures
        r == *old(b),
        *final(b) is None,
{
    let mut r: Option<(String, String)> = None;
    std::mem::swap(&mut r, b);
    r
}

impl CpuEnergyManager {
    /// What a governor wait starts as: a scan of the `scaling_governor` file
    /// of every policy that exposes EPP.
    pub open spec fn starts_governor_wait(&self, w: GovernorWait, epp: EppPreference, timeout_ms: u64) -> bool {
        w.begins(epp_name(epp), governor_files(self.caps_spec().policies@), timeout_ms)
    }

    /// Begin waiting, for at most `timeout_ms` milliseconds, until no
    /// cpufreq governor keeps `epp` from being written.
    pub fn wait_for_governor_for_epp(&self, epp: EppPreference, timeout_ms: u64) -> (w: GovernorWait)
        ensures
            w.wf(),
            self.starts_governor_wait(w, epp, timeout_ms),
    {
        let policies = &self.caps.policies;
        let mut files: Vec<(String, String)> = Vec::new();
        let mut i: usize = 0;
        assert(policies@.subrange(0, 0) =~= seq![]);
        assert(pair_views(files@) =~= seq![]);
        while i < policies.len()
            invariant
                i <= policies.len(),
                pair_views(files@) == governor_files(policies@.subrange(0, i as int)),
            decreases policies.len() - i,
        {
            let ghost pre = policies@.subrange(0, i as int);
            let ghost nxt = policies@.subrange(0, i + 1);
            assert(nxt.drop_last() =~= pre);
            if policies[i].epp_path.is_some() {
                let g = join_path(policies[i].path.as_str(), "scaling_governor");
                let ghost fv = pair_views(files@);
                files.push((policies[i].path.clone(), g));
                assert(pair_views(files@) =~= fv.push((policies@[i as int].path@, g@)));
            }
            i = i + 1;
        }
        assert(policies@.subrange(0, policies@.len() as int) =~= policies@);
        GovernorWait {
            epp: owned(epp.as_str()),
            policies: files,
            idx: 0,
            timeout_ms,
            elapsed_ms: 0,
            blocked: None,
            phase: GovernorPhase::Start,
            outcome: None,
        }
    }
}

} // verus!

verus! {

/// The human-readable message of a CPU energy error.
pub open spec fn cpu_error_message(e: CpuEnergyError) -> Seq<char>
    decreases e,
{
    match e {
        CpuEnergyError::NoPoliciesFound { search_path } => "No cpufreq policies found in '"@
            + search_path@ + "'"@,
        CpuEnergyError::BoostNotSupported { path } => "CPU boost interface is not supported at '"@
            + path@ + "'"@,
        CpuEnergyError::EppNotSupported { policy } => "EPP interface is not supported for policy '"@
            + policy@ + "'"@,
        CpuEnergyError::UnsupportedEppPreference { policy, requested, available } =>
            "EPP preference '"@ + requested@ + "' is not supported on policy '"@ + policy@
            + "'. Available: ["@ + spec_join(views(available@), ", "@) + "]"@,
        CpuEnergyError::IoError { path, action, source } => "I/O error during "@ + action@
            + " on '"@ + path@ + "': "@ + source@,
        CpuEnergyError::ReadbackMismatch { path, expected, actual } =>
            "Readback verification mismatch on '"@ + path@ + "': expected '"@ + expected@
            + "', got '"@ + actual@ + "'"@,
        CpuEnergyError::InvalidValue { path, value } => "Invalid sysfs value '"@ + value@
            + "' at '"@ + path@ + "'"@,
        CpuEnergyError::RollbackFailed { original_error, rollback_errors } =>
            "Operation failed with '"@ + cpu_error_message(*original_error)
            + "' and rollback failed on "@ + spec_decimal(rollback_errors@.len())
            + " policy(ies)"@,
        CpuEnergyError::GovernorTimeout { target_epp, policy, governor, waited_ms } =>
            "Timed out after "@ + spec_decimal(waited_ms as nat)
            + " ms waiting for the cpufreq governor of policy '"@ + policy@ + "' (currently '"@
            + governor@ + "') to permit EPP '"@ + target_epp@ + "'"@,
    }
}

impl CpuEnergyError {
    /// The human-readable message of this error.
    pub fn message(&self) -> (r: String)
        ensures
            r@ == cpu_error_message(*self),
        decreases self,
    {
        let mut m = String::new();
        match self {
            CpuEnergyError::NoPoliciesFound { search_path } => {
                append(&mut m, "No cpufreq policies found in '");
                append(&mut m, search_path.as_str());
                append(&mut m, "'");
            },
            CpuEnergyError::BoostNotSupported { path } => {
                append(&mut m, "CPU boost interface is not supported at '");
                append(&mut m, path.as_str());
                append(&mut m, "'");
            },
            CpuEnergyError::EppNotSupported { policy } => {
                append(&mut m, "EPP interface is not supported for policy '");
                append(&mut m, policy.as_str());
                append(&mut m, "'");
            },
            CpuEnergyError::UnsupportedEppPreference { policy, requested, available } => {
                append(&mut m, "EPP preference '");
                append(&mut m, requested.as_str());
                append(&mut m, "' is not supported on policy '");
                append(&mut m, policy.as_str());
                append(&mut m, "'. Available: [");
                let j = join(available, ", ");
                append(&mut m, j.as_str());
                append(&mut m, "]");
            },
            CpuEnergyError::IoError { path, action, source } => {
                append(&mut m, "I/O error during ");
                append(&mut m, action);
                append(&mut m, " on '");
                append(&mut m, path.as_str());
                append(&mut m, "': ");
                append(&mut m, source.as_str());
            },
            CpuEnergyError::ReadbackMismatch { path, expected, actual } => {
                append(&mut m, "Readback verification mismatch on '");
                append(&mut m, path.as_str());
                append(&mut m, "': expected '");
                append(&mut m, expected.as_str());
                append(&mut m, "', got '");
                append(&mut m, actual.as_str());
                append(&mut m, "'");
            },
            CpuEnergyError::InvalidValue { path, value } => {
                append(&mut m, "Invalid sysfs value '");
                append(&mut m, value.as_str());
                append(&mut m, "' at '");
                append(&mut m, path.as_str());
                append(&mut m, "'");
            },
            CpuEnergyError::RollbackFailed { original_error, rollback_errors } => {
                append(&mut m, "Operation failed with '");
                let inner = original_error.message();
                append(&mut m, inner.as_str());
                append(&mut m, "' and rollback failed on ");
                let n = decimal(rollback_errors.len() as u64);
                append(&mut m, n.as_str());
                append(&mut m, " policy(ies)");
            },
            CpuEnergyError::GovernorTimeout { target_epp, policy, governor, waited_ms } => {
                append(&mut m, "Timed out after ");
                let n = decimal(*waited_ms);
                append(&mut m, n.as_str());
                append(&mut m, " ms waiting for the cpufreq governor of policy '");
                append(&mut m, policy.as_str());
                append(&mut m, "' (currently '");
                append(&mut m, governor.as_str());
                append(&mut m, "') to permit EPP '");
                append(&mut m, target_epp.as_str());
                append(&mut m, "'");
            },
        }
        proof {
            assert(Seq::<char>::empty() + "x"@ =~= "x"@);
        }
        m
    }
}

} // verus!

verus! {

/// The write of entry `k` of a restore.
pub open spec fn restore_write_at(w: RestoreWrite, k: int) -> SysfsActionView {
    SysfsActionView::Write { path: w.writes()[k].0, value: w.writes()[k].1 }
}

/// In a trace, the first `m` entries of `w` were asked for in order and each
/// write succeeded.
pub open spec fn entries_written(w: RestoreWrite, evs: Seq<SysfsEvent>, acts: Seq<SysfsActionView>, m: int) -> bool {
    forall|k: int|
        0 <= k < m ==> acts[k] == restore_write_at(w, k) && (evs[k + 1] matches SysfsEvent::WriteDone(Ok(_)))
}

/// Where a restore trace stands at state `i`.
closed spec fn restore_at(
    s0: RestoreWrite,
    st: RestoreWrite,
    i: int,
    evs: Seq<SysfsEvent>,
    acts: Seq<SysfsActionView>,
) -> bool {
    let n = s0.entries@.len() as int;
    &&& st.entries == s0.entries
    &&& match st.phase {
        RestorePhase::Start => i == 0 && st == s0,
        RestorePhase::WriteEpp => {
            &&& 1 <= i <= n
            &&& st.idx == i - 1
            &&& st.boost == s0.boost
            &&& !st.handed_over
            &&& st.outcome is None
            &&& entries_written(s0, evs, acts, i - 1)
            &&& acts[i - 1] == restore_write_at(s0, i - 1)
        },
        RestorePhase::Boost => {
            &&& s0.boost is Some
            &&& st.boost is Some
            &&& !st.handed_over
            &&& st.outcome is None
            &&& entries_written(s0, evs, acts, n)
            &&& st.boost->0.path == s0.boost->0.path
            &&& st.boost->0.value == s0.boost->0.value
            &&& st.boost->0.outcome is None
            &&& acts[n] == (SysfsActionView::Write {
                path: s0.boost->0.path@,
                value: s0.boost->0.value@,
            })
            &&& (st.boost->0.phase == BoostPhase::Write && i == n + 1 || st.boost->0.phase
                == BoostPhase::ReadBack && i == n + 2 && (evs[n + 1] matches SysfsEvent::WriteDone(Ok(_)))
                && acts[n + 1] == (SysfsActionView::Read { path: s0.boost->0.path@ }))
        },
        RestorePhase::Finished => st.result() == Some(Ok::<(), CpuEnergyError>(())) ==> {
            &&& entries_written(s0, evs, acts, n)
            &&& i >= n + 1
            &&& s0.boost is Some ==> {
                &&& i >= n + 3
                &&& acts[n] == (SysfsActionView::Write {
                    path: s0.boost->0.path@,
                    value: s0.boost->0.value@,
                })
                &&& (evs[n + 1] matches SysfsEvent::WriteDone(Ok(_)))
                &&& acts[n + 1] == (SysfsActionView::Read { path: s0.boost->0.path@ })
                &&& evs[n + 2] matches SysfsEvent::ReadDone(Ok(c)) && spec_trim(c@)
                    == s0.boost->0.value@
            }
        },
    }
}

/// Law: a restore that ends well wrote back every captured EPP value and
/// then the captured boost flag. Take a restore at its start, stepped on
/// the events observed (`acts[i]` being what step `i` asked for): when it
/// ends with `Ok`, it first asked to write every entry of `writes()`, in
/// order, each write succeeding; and when it restores a boost flag (a boost
/// write of `value` to `path` about to begin), it then wrote `value` to
/// `path` and read back exactly `value` from it.
pub proof fn lemma_restore_writes_back(
    states: Seq<RestoreWrite>,
    evs: Seq<SysfsEvent>,
    acts: Seq<SysfsActionView>,
)
    requires
        states.len() == evs.len() + 1,
        acts.len() == evs.len(),
        states[0].wf(),
        states[0].at_start(),
        forall|i: int|
            0 <= i < evs.len() ==> states[i].accepts(#[trigger] evs[i]) && states[i].step_spec(
                evs[i],
                states[i + 1],
                acts[i],
            ),
        states.last().result() == Some(Ok::<(), CpuEnergyError>(())),
    ensures
        evs.len() > states[0].writes().len(),
        entries_written(states[0], evs, acts, states[0].writes().len() as int),
        forall|path: Seq<char>, value: Seq<char>|
            states[0].boost_restore() is Some && #[trigger] states[0].boost_restore()->0.begins(
                path,
                value,
            ) ==> {
                let n = states[0].writes().len() as int;
                &&& evs.len() >= n + 3
                &&& acts[n] == (SysfsActionView::Write { path, value })
                &&& acts[n + 1] == (SysfsActionView::Read { path })
                &&& evs[n + 2] matches SysfsEvent::ReadDone(Ok(c)) && spec_trim(c@) == value
            },
{
    let s0 = states[0];
    let last = evs.len() as int;
    assert forall|i: int| 0 <= i <= last implies restore_at(s0, #[trigger] states[i], i, evs, acts) by {
        lemma_restore_prefix(states, evs, acts, i);
    }
    assert(states.last() == states[last]);
    let st = states[last];
    assert(restore_at(s0, st, last, evs, acts));
    assert(st.phase == RestorePhase::Finished);
}

proof fn lemma_restore_prefix(
    states: Seq<RestoreWrite>,
    evs: Seq<SysfsEvent>,
    acts: Seq<SysfsActionView>,
    i: int,
)
    requires
        states.len() == evs.len() + 1,
        acts.len() == evs.len(),
        states[0].wf(),
        states[0].at_start(),
        forall|j: int|
            0 <= j < evs.len() ==> states[j].accepts(#[trigger] evs[j]) && states[j].step_spec(
                evs[j],
                states[j + 1],
                acts[j],
            ),
        0 <= i <= evs.len(),
    ensures
        restore_at(states[0], states[i], i, evs, acts),
    decreases i,
{
    let s0 = states[0];
    let n = s0.entries@.len() as int;
    if i > 0 {
        lemma_restore_prefix(states, evs, acts, i - 1);
        let st = states[i - 1];
        let nx = states[i];
        let ev = evs[i - 1];
        assert(st.accepts(ev));
        assert(st.step_spec(ev, nx, acts[i - 1]));
        if st.phase == RestorePhase::Boost {
            let b = st.boost->0;
            let nb = nx.boost->0;
            assert(b.step_spec(ev, nb, acts[i - 1]));
            if b.phase == BoostPhase::ReadBack {
                assert(nx.result() == nb.outcome);
            }
        }
        if st.phase == RestorePhase::WriteEpp {
            if ev is WriteDone && ev->WriteDone_0 is Ok {
                assert forall|k: int| 0 <= k < i - 1 implies acts[k] == restore_write_at(s0, k)
                    && (evs[k + 1] matches SysfsEvent::WriteDone(Ok(_))) by {
                    if k < i - 2 {
                        assert(entries_written(s0, evs, acts, i - 2));
                    }
                }
                assert(entries_written(s0, evs, acts, i - 1));
                if i - 1 >= n && s0.boost is Some {
                    assert(s0.boost->0.accepts(SysfsEvent::Start));
                }
            }
        } else if st.phase == RestorePhase::Start {
            assert(entries_written(s0, evs, acts, 0));
            if n == 0 && s0.boost is Some {
                assert(s0.boost->0.accepts(SysfsEvent::Start));
            }
        }
    }
}

} // verus!

verus! {

impl EppWrite {
    /// Under its invariant, it has a result exactly when it is finished.
    pub proof fn lemma_result_when_finished(self)
        requires
            self.wf(),
        ensures
            self.is_finished() <==> self.result() is Some,
    {
    }

    /// Once finished, a step leaves it as it is and asks for nothing more.
    pub proof fn lemma_finished_stays(self, ev: SysfsEvent, new: EppWrite, a: SysfsActionView)
        requires
            self.is_finished(),
            self.step_spec(ev, new, a),
        ensures
            new == self,
            a == SysfsActionView::Done,
    {
    }

    /// One about to begin is not finished and has no result yet.
    pub proof fn lemma_begins_unfinished(self, targets: Seq<Seq<char>>, epp: Seq<char>)
        requires
            self.begins(targets, epp),
        ensures
            !self.is_finished(),
            self.result() is None,
    {
    }

    /// A write refused for a policy without an EPP interface is finished
    /// with `EppNotSupported` for that policy, having touched nothing.
    pub proof fn lemma_refused_epp_not_supported(self, policy: Seq<char>)
        requires
            self.refused_with_epp_not_supported(policy),
        ensures
            self.is_finished(),
            self.result() matches Some(Err(CpuEnergyError::EppNotSupported { policy: p })) && p@ == policy,
            self.written().len() == 0,
    {
    }

    /// A write refused for a policy lacking the preference is finished with
    /// `UnsupportedEppPreference`, having touched nothing.
    pub proof fn lemma_refused_unsupported(self, policy: PolicyInfo, epp: Seq<char>)
        requires
            self.refused_with_unsupported(policy, epp),
        ensures
            self.is_finished(),
            self.result() matches Some(
                Err(CpuEnergyError::UnsupportedEppPreference { policy: p, requested, available }),
            ) && p@ == policy.path@ && requested@ == epp && views(available@) == views(
                policy.available_epps@,
            ),
            self.written().len() == 0,
    {
    }
}

impl BoostWrite {
    /// Under its invariant, it has a result exactly when it is finished.
    pub proof fn lemma_result_when_finished(self)
        requires
            self.wf(),
        ensures
            self.is_finished() <==> self.result() is Some,
    {
    }

    /// Once finished, a step leaves it as it is and asks for nothing more.
    pub proof fn lemma_finished_stays(self, ev: SysfsEvent, new: BoostWrite, a: SysfsActionView)
        requires
            self.is_finished(),
            self.step_spec(ev, new, a),
        ensures
            new == self,
            a == SysfsActionView::Done,
    {
    }

    /// One about to begin is not finished and has no result yet.
    pub proof fn lemma_begins_unfinished(self, path: Seq<char>, value: Seq<char>)
        requires
            self.begins(path, value),
        ensures
            !self.is_finished(),
            self.result() is None,
    {
    }

    /// A write refused for want of a boost interface is finished with
    /// `BoostNotSupported` for `path`.
    pub proof fn lemma_refused_unsupported(self, path: Seq<char>)
        requires
            self.refused_unsupported(path),
        ensures
            self.is_finished(),
            self.result() matches Some(Err(CpuEnergyError::BoostNotSupported { path: p })) && p@ == path,
    {
    }
}

impl SnapshotRead {
    /// Under its invariant, it has a result exactly when it is finished.
    pub proof fn lemma_result_when_finished(self)
        requires
            self.wf(),
        ensures
            self.is_finished() <==> self.result() is Some,
    {
    }

    /// Once finished, a step leaves it as it is and asks for nothing more.
    pub proof fn lemma_finished_stays(self, ev: SysfsEvent, new: SnapshotRead, a: SysfsActionView)
        requires
            self.is_finished(),
            self.step_spec(ev, new, a),
        ensures
            new == self,
            a == SysfsActionView::Done,
    {
    }

    /// One about to begin is not finished and has no result yet.
    pub proof fn lemma_begins_unfinished(self, boost: Option<Seq<char>>, targets: Seq<Seq<char>>)
        requires
            self.begins(boost, targets),
        ensures
            !self.is_finished(),
            self.result() is None,
    {
    }
}

impl RestoreWrite {
    /// Under its invariant, it has a result exactly when it is finished.
    pub proof fn lemma_result_when_finished(self)
        requires
            self.wf(),
        ensures
            self.is_finished() <==> self.result() is Some,
    {
    }

    /// Once finished, a step leaves it as it is and asks for nothing more.
    pub proof fn lemma_finished_stays(self, ev: SysfsEvent, new: RestoreWrite, a: SysfsActionView)
        requires
            self.is_finished(),
            self.step_spec(ev, new, a),
        ensures
            new == self,
            a == SysfsActionView::Done,
    {
    }

    /// A restore at its start is not finished and has no result yet.
    pub proof fn lemma_start_unfinished(self)
        requires
            self.wf(),
            self.at_start(),
        ensures
            !self.is_finished(),
            self.result() is None,
    {
    }
}

impl GovernorWait {
    /// Under its invariant, it has a result exactly when it is finished.
    pub proof fn lemma_result_when_finished(self)
        requires
            self.wf(),
        ensures
            self.is_finished() <==> self.result() is Some,
    {
    }

    /// Once finished, a step leaves it as it is and asks for nothing more.
    pub proof fn lemma_finished_stays(self, ev: SysfsEvent, new: GovernorWait, a: SysfsActionView)
        requires
            self.is_finished(),
            self.step_spec(ev, new, a),
        ensures
            new == self,
            a == SysfsActionView::Done,
    {
    }

    /// One about to begin is not finished and has no result yet.
    pub proof fn lemma_begins_unfinished(self, epp: Seq<char>, files: Seq<(Seq<char>, Seq<char>)>, timeout_ms: u64)
        requires
            self.begins(epp, files, timeout_ms),
        ensures
            !self.is_finished(),
            self.result() is None,
    {
    }
}

} // verus!
