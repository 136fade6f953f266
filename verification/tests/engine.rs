use omen_hub::cpu_energy::{
    CpuEnergyError, CpuEnergyManager, CpuEnergySnapshot, CpufreqScan, PolicyDirEntry,
};
use omen_hub::power_engine::{
    PlatformProfileManager, PowerEngineError, ProfileCandidateScan, UnifiedPowerEngine,
};
use omen_hub::power_model::{EppPreference, PowerMode};
use omen_hub::power_service::{AppState, PowerConfig, PowerService};
use omen_hub::sysfs::{SysfsAction, SysfsEvent, WriteFailure};
use std::collections::{BTreeMap, BTreeSet};

const ROOT: &str = "/mock";
const CPUFREQ: &str = "/mock/sys/devices/system/cpu/cpufreq";

/// An in-memory sysfs tree that performs the steps the library asks for.
struct MockSystem {
    files: BTreeMap<String, String>,
    dirs: BTreeSet<String>,
    clock_ms: u64,
    op_elapsed_ms: u64,
    /// Writes that happen on their own once the clock reaches a time.
    scheduled: Vec<(u64, String, String)>,
    /// Files that accept writes but keep their content.
    sticky: BTreeSet<String>,
    /// Every write asked for, as `path=value`.
    writes: Vec<String>,
}

impl MockSystem {
    fn new() -> Self {
        let mut dirs = BTreeSet::new();
        dirs.insert(ROOT.to_string());
        MockSystem {
            files: BTreeMap::new(),
            dirs,
            clock_ms: 0,
            op_elapsed_ms: 0,
            scheduled: Vec::new(),
            sticky: BTreeSet::new(),
            writes: Vec::new(),
        }
    }

    fn mkdirs(&mut self, dir: &str) {
        let mut cur = String::new();
        for part in dir.split('/').filter(|p| !p.is_empty()) {
            cur.push('/');
            cur.push_str(part);
            self.dirs.insert(cur.clone());
        }
    }

    fn write_file(&mut self, path: &str, content: &str) {
        let parent = &path[..path.rfind('/').unwrap()];
        self.mkdirs(parent);
        self.files.insert(path.to_string(), content.to_string());
    }

    /// Replace a file with a directory, so that reading or writing it fails.
    fn make_dir(&mut self, path: &str) {
        self.files.remove(path);
        self.dirs.insert(path.to_string());
    }

    fn remove_file(&mut self, path: &str) {
        self.files.remove(path);
    }

    fn setup_platform_profile(&mut self, initial: &str, choices: &[&str]) -> String {
        let path = format!("{}/sys/firmware/acpi/platform_profile", ROOT);
        self.write_file(&path, &format!("{}\n", initial));
        let choices_path = format!("{}/sys/firmware/acpi/platform_profile_choices", ROOT);
        self.write_file(&choices_path, &format!("{}\n", choices.join(" ")));
        path
    }

    fn add_boost(&mut self, initial: &str) -> String {
        let path = format!("{}/boost", CPUFREQ);
        self.write_file(&path, &format!("{}\n", initial));
        path
    }

    fn add_policy(&mut self, index: usize, initial_epp: &str, available: &[&str]) -> (String, String) {
        let dir = format!("{}/policy{}", CPUFREQ, index);
        self.mkdirs(&dir);
        let epp = format!("{}/energy_performance_preference", dir);
        self.write_file(&epp, &format!("{}\n", initial_epp));
        let avail = format!("{}/energy_performance_available_preferences", dir);
        self.write_file(&avail, &format!("{}\n", available.join(" ")));
        (dir, epp)
    }

    fn add_policy_with_governor(
        &mut self,
        index: usize,
        initial_epp: &str,
        initial_gov: &str,
        available: &[&str],
    ) -> (String, String, String) {
        let (dir, epp) = self.add_policy(index, initial_epp, available);
        let gov = format!("{}/scaling_governor", dir);
        self.write_file(&gov, &format!("{}\n", initial_gov));
        (dir, epp, gov)
    }

    fn is_file(&self, path: &str) -> bool {
        self.files.contains_key(path)
    }

    fn read(&self, path: &str) -> Result<String, String> {
        match self.files.get(path) {
            Some(c) => Ok(c.clone()),
            None if self.dirs.contains(path) => Err("Is a directory (os error 21)".to_string()),
            None => Err("No such file or directory (os error 2)".to_string()),
        }
    }

    fn cpu_scan(&self) -> CpufreqScan {
        let prefix = format!("{}/", CPUFREQ);
        let mut names: BTreeSet<String> = BTreeSet::new();
        for p in self.dirs.iter().chain(self.files.keys()) {
            if let Some(rest) = p.strip_prefix(&prefix) {
                if !rest.contains('/') {
                    names.insert(rest.to_string());
                }
            }
        }
        let entries = names
            .into_iter()
            .map(|name| {
                let path = format!("{}{}", prefix, name);
                let avail = format!("{}/energy_performance_available_preferences", path);
                PolicyDirEntry {
                    epp_is_file: self.is_file(&format!("{}/energy_performance_preference", path)),
                    available: self.files.get(&avail).cloned(),
                    name,
                    path,
                }
            })
            .collect();
        CpufreqScan {
            boost_is_file: self.is_file(&format!("{}/boost", CPUFREQ)),
            cpufreq_is_dir: self.dirs.contains(CPUFREQ),
            read_dir_error: None,
            entries,
        }
    }

    fn profile_scan(&self) -> Vec<ProfileCandidateScan> {
        PlatformProfileManager::probe_paths(ROOT)
            .into_iter()
            .map(|(profile, under, dash)| {
                let under_is_file = self.is_file(&under);
                let dash_is_file = self.is_file(&dash);
                let picked = if under_is_file { Some(under) } else if dash_is_file { Some(dash) } else { None };
                ProfileCandidateScan {
                    profile_is_file: self.is_file(&profile),
                    underscore_choices_is_file: under_is_file,
                    dash_choices_is_file: dash_is_file,
                    choices_content: picked.and_then(|p| self.files.get(&p).cloned()),
                }
            })
            .collect()
    }

    fn perform(&mut self, a: SysfsAction) -> Option<SysfsEvent> {
        match a {
            SysfsAction::Read { path } => Some(SysfsEvent::ReadDone(self.read(&path))),
            SysfsAction::Write { path, value } => {
                self.writes.push(format!("{}={}", path, value));
                if self.sticky.contains(&path) && self.files.contains_key(&path) {
                    Some(SysfsEvent::WriteDone(Ok(())))
                } else if self.dirs.contains(&path) {
                    Some(SysfsEvent::WriteDone(Err(WriteFailure::Open("Is a directory (os error 21)".into()))))
                } else if self.files.contains_key(&path) {
                    self.files.insert(path, value);
                    Some(SysfsEvent::WriteDone(Ok(())))
                } else {
                    Some(SysfsEvent::WriteDone(Err(WriteFailure::Open(
                        "No such file or directory (os error 2)".into(),
                    ))))
                }
            }
            SysfsAction::Replace { path, value } => {
                self.writes.push(format!("{}={}", path, value));
                if self.dirs.contains(&path) {
                    Some(SysfsEvent::WriteDone(Err(WriteFailure::Open("Is a directory (os error 21)".into()))))
                } else {
                    self.files.insert(path, value);
                    Some(SysfsEvent::WriteDone(Ok(())))
                }
            }
            SysfsAction::Probe { path } => {
                Some(SysfsEvent::Probed(self.files.contains_key(&path) || self.dirs.contains(&path)))
            }
            SysfsAction::Sleep { ms } => {
                self.clock_ms += ms;
                self.op_elapsed_ms += ms;
                let now = self.clock_ms;
                let due: Vec<(String, String)> = self
                    .scheduled
                    .iter()
                    .filter(|(t, _, _)| *t <= now)
                    .map(|(_, p, v)| (p.clone(), v.clone()))
                    .collect();
                self.scheduled.retain(|(t, _, _)| *t > now);
                for (p, v) in due {
                    self.files.insert(p, v);
                }
                Some(SysfsEvent::Slept { elapsed_ms: self.op_elapsed_ms })
            }
            SysfsAction::Done => None,
        }
    }

    /// Run one operation to its end, performing every step it asks for;
    /// `step` gives the next action and whether the operation is finished.
    /// A `Done` before the end asks for nothing and is answered with `Start`.
    fn drive(&mut self, mut step: impl FnMut(SysfsEvent) -> (SysfsAction, bool)) {
        self.op_elapsed_ms = 0;
        let mut ev = SysfsEvent::Start;
        for _ in 0..100_000 {
            let (a, finished) = step(ev);
            match self.perform(a) {
                Some(next) => ev = next,
                None if finished => return,
                None => ev = SysfsEvent::Start,
            }
        }
        panic!("operation did not finish");
    }

    fn manager(&self) -> CpuEnergyManager {
        CpuEnergyManager::with_root(ROOT.to_string(), &self.cpu_scan()).unwrap()
    }

    fn engine(&self) -> UnifiedPowerEngine {
        UnifiedPowerEngine::with_root(ROOT, &self.cpu_scan(), &self.profile_scan()).unwrap()
    }

    fn read_boost(&self, m: &CpuEnergyManager) -> Result<bool, CpuEnergyError> {
        let read = match m.boost_read_path() {
            Ok(p) => self.read(&p),
            Err(_) => Err(String::new()),
        };
        m.read_boost(read)
    }

    fn read_epp(&self, m: &CpuEnergyManager) -> Result<String, CpuEnergyError> {
        let read = match m.epp_read_path() {
            Ok(p) => self.read(&p),
            Err(_) => Err(String::new()),
        };
        m.read_epp(read)
    }

    fn read_epp_all(&self, m: &CpuEnergyManager) -> Result<Vec<(String, String)>, CpuEnergyError> {
        let reads: Vec<Result<String, String>> = m.epp_paths().iter().map(|p| self.read(p)).collect();
        m.read_epp_all(&reads)
    }

    fn read_profile(&self, m: &PlatformProfileManager) -> Result<String, PowerEngineError> {
        let read = match m.profile_read_path() {
            Ok(p) => self.read(&p),
            Err(_) => Err(String::new()),
        };
        m.read_profile(read)
    }

    fn set_boost(&mut self, m: &CpuEnergyManager, enable: bool) -> Result<(), CpuEnergyError> {
        let mut w = m.set_boost(enable);
        self.drive(|ev| (w.step(ev), w.finished()));
        w.outcome().unwrap()
    }

    fn set_epp(&mut self, m: &CpuEnergyManager, epp: EppPreference) -> Result<(), CpuEnergyError> {
        let mut w = m.set_epp(epp);
        self.drive(|ev| (w.step(ev), w.finished()));
        w.outcome().unwrap()
    }

    fn snapshot(&mut self, m: &CpuEnergyManager) -> Result<CpuEnergySnapshot, CpuEnergyError> {
        let mut s = m.snapshot();
        self.drive(|ev| (s.step(ev), s.finished()));
        s.outcome().unwrap()
    }

    fn restore(&mut self, m: &CpuEnergyManager, snapshot: &CpuEnergySnapshot) -> Result<(), CpuEnergyError> {
        let mut w = m.restore(snapshot);
        self.drive(|ev| (w.step(ev), w.finished()));
        w.outcome().unwrap()
    }

    fn set_mode(&mut self, engine: &mut UnifiedPowerEngine, mode: PowerMode) -> Result<(), PowerEngineError> {
        let mut t = engine.set_mode(mode);
        self.drive(|ev| (t.step(ev), t.finished()));
        let o = t.finish();
        engine.complete(o)
    }
}

const ALL_EPPS: [&str; 5] = ["default", "performance", "balance_performance", "balance_power", "power"];
const FOUR_EPPS: [&str; 4] = ["performance", "balance_performance", "balance_power", "power"];
const THREE_EPPS: [&str; 3] = ["balance_power", "performance", "power"];

#[test]
fn test_single_policy_discovery_and_operations() {
    let mut mock = MockSystem::new();
    mock.add_boost("1");
    mock.add_policy(0, "balance_power", &ALL_EPPS);

    let manager = mock.manager();
    let caps = manager.capabilities();

    assert!(caps.has_boost);
    assert_eq!(caps.policy_count(), 1);
    assert_eq!(caps.policies[0].index, 0);
    assert_eq!(caps.policies[0].available_epps.len(), 5);

    // Boost test
    assert!(mock.read_boost(&manager).unwrap());
    mock.set_boost(&manager, false).unwrap();
    assert!(!mock.read_boost(&manager).unwrap());

    // EPP test
    assert_eq!(mock.read_epp(&manager).unwrap(), "balance_power");
    mock.set_epp(&manager, EppPreference::Performance).unwrap();
    assert_eq!(mock.read_epp(&manager).unwrap(), "performance");

    // Snapshot and restore test
    let snapshot = mock.snapshot(&manager).unwrap();
    assert_eq!(snapshot.boost, Some(false));

    mock.set_boost(&manager, true).unwrap();
    mock.set_epp(&manager, EppPreference::Power).unwrap();
    assert!(mock.read_boost(&manager).unwrap());
    assert_eq!(mock.read_epp(&manager).unwrap(), "power");

    mock.restore(&manager, &snapshot).unwrap();
    assert!(!mock.read_boost(&manager).unwrap());
    assert_eq!(mock.read_epp(&manager).unwrap(), "performance");
}

#[test]
fn test_multi_policy_discovery_and_write() {
    let mut mock = MockSystem::new();
    mock.add_boost("0");

    // Simulate an 8-core / 16-thread CPU with 16 policies
    for i in 0..16 {
        mock.add_policy(i, "balance_performance", &ALL_EPPS);
    }

    let manager = mock.manager();
    assert_eq!(manager.capabilities().policy_count(), 16);

    // Ensure policies are sorted numerically
    for (idx, pol) in manager.capabilities().policies.iter().enumerate() {
        assert_eq!(pol.index, idx);
    }

    // Apply EPP across all 16 policies
    mock.set_epp(&manager, EppPreference::Power).unwrap();

    let all_epps = mock.read_epp_all(&manager).unwrap();
    assert_eq!(all_epps.len(), 16);
    for (_path, val) in all_epps {
        assert_eq!(val, "power");
    }
}

#[test]
fn test_missing_boost_interface() {
    let mut mock = MockSystem::new();
    mock.add_policy(0, "power", &["performance", "balance_power", "power"]);

    let manager = mock.manager();
    assert!(!manager.capabilities().has_boost);

    // Boost operations should return structured error, not panic
    match mock.read_boost(&manager) {
        Err(CpuEnergyError::BoostNotSupported { .. }) => {}
        other => panic!("Expected BoostNotSupported, got {:?}", other),
    }

    match mock.set_boost(&manager, true) {
        Err(CpuEnergyError::BoostNotSupported { .. }) => {}
        other => panic!("Expected BoostNotSupported, got {:?}", other),
    }

    // EPP operations should still work fine
    assert_eq!(mock.read_epp(&manager).unwrap(), "power");
}

#[test]
fn test_missing_epp_interface() {
    let mut mock = MockSystem::new();
    mock.add_boost("1");

    // Create policy0 directory WITHOUT energy_performance_preference file
    mock.mkdirs(&format!("{}/sys/devices/system/cpu/cpufreq/policy0", ROOT));

    let manager = mock.manager();
    assert!(!manager.capabilities().has_epp());

    match mock.read_epp(&manager) {
        Err(CpuEnergyError::EppNotSupported { .. }) => {}
        other => panic!("Expected EppNotSupported, got {:?}", other),
    }

    match mock.set_epp(&manager, EppPreference::Performance) {
        Err(CpuEnergyError::EppNotSupported { .. }) => {}
        other => panic!("Expected EppNotSupported, got {:?}", other),
    }
}

#[test]
fn test_unsupported_epp_preference() {
    let mut mock = MockSystem::new();
    mock.add_policy(0, "default", &["default", "performance"]);

    let manager = mock.manager();

    // balance_power is not in available preferences
    match mock.set_epp(&manager, EppPreference::BalancePower) {
        Err(CpuEnergyError::UnsupportedEppPreference { requested, available, .. }) => {
            assert_eq!(requested, "balance_power");
            assert_eq!(available, vec!["default", "performance"]);
        }
        other => panic!("Expected UnsupportedEppPreference, got {:?}", other),
    }

    // Verify policy was left unchanged
    assert_eq!(mock.read_epp(&manager).unwrap(), "default");
}

#[test]
fn test_partial_epp_write_failure_and_rollback() {
    let mut mock = MockSystem::new();
    mock.add_boost("1");

    // Add policy0 and policy1
    let (_, epp0) = mock.add_policy(0, "balance_power", &["performance", "balance_power", "power"]);
    let (_, epp1) = mock.add_policy(1, "balance_power", &["performance", "balance_power", "power"]);

    let manager = mock.manager();

    // Replace policy1 EPP file with a directory to simulate a deterministic sysfs failure.
    mock.make_dir(&epp1);

    // policy0 will succeed, policy1 will fail, and policy0 must be rolled back
    let result = mock.set_epp(&manager, EppPreference::Performance);
    assert!(result.is_err());

    let current_epp0 = mock.read(&epp0).unwrap();
    assert_eq!(
        current_epp0.trim(),
        "balance_power",
        "Policy0 should have been rolled back to original value"
    );

    match result {
        Err(CpuEnergyError::IoError { action, .. }) => {
            assert!(action.contains("EPP"));
        }
        other => panic!("Expected IoError from mock sysfs failure, got {:?}", other),
    }
}

#[test]
fn discovery_without_policies_fails() {
    let mut mock = MockSystem::new();
    mock.add_boost("1");
    match CpuEnergyManager::with_root(ROOT.to_string(), &mock.cpu_scan()) {
        Err(CpuEnergyError::NoPoliciesFound { search_path }) => {
            assert_eq!(search_path, "/mock/sys/devices/system/cpu/cpufreq");
        }
        other => panic!("Expected NoPoliciesFound, got {:?}", other),
    }
}

#[test]
fn test_successful_mode_transitions_and_all_mappings() {
    let mut mock = MockSystem::new();
    mock.setup_platform_profile("balanced", &["low-power", "power-saver", "balanced", "performance"]);
    mock.add_boost("1");
    mock.add_policy(0, "balance_power", &FOUR_EPPS);
    mock.add_policy(1, "balance_power", &FOUR_EPPS);

    let mut engine = mock.engine();
    assert_eq!(engine.current_mode(), None);

    // 1. Transition to Work
    mock.set_mode(&mut engine, PowerMode::Work).unwrap();
    assert_eq!(engine.current_mode(), Some(PowerMode::Work));
    assert_eq!(mock.read_profile(engine.platform_manager()).unwrap(), "balanced");
    assert_eq!(mock.read_epp(engine.cpu_manager()).unwrap(), "balance_power");
    assert!(mock.read_boost(engine.cpu_manager()).unwrap());

    // 2. Transition to GameBattery
    mock.set_mode(&mut engine, PowerMode::GameBattery).unwrap();
    assert_eq!(engine.current_mode(), Some(PowerMode::GameBattery));
    assert_eq!(mock.read_profile(engine.platform_manager()).unwrap(), "power-saver");
    assert_eq!(mock.read_epp(engine.cpu_manager()).unwrap(), "power");
    assert!(!mock.read_boost(engine.cpu_manager()).unwrap());

    // 3. Transition to Game
    mock.set_mode(&mut engine, PowerMode::Game).unwrap();
    assert_eq!(engine.current_mode(), Some(PowerMode::Game));
    assert_eq!(mock.read_profile(engine.platform_manager()).unwrap(), "performance");
    assert_eq!(mock.read_epp(engine.cpu_manager()).unwrap(), "performance");
    assert!(mock.read_boost(engine.cpu_manager()).unwrap());

    // 4. Transition back to Work
    mock.set_mode(&mut engine, PowerMode::Work).unwrap();
    assert_eq!(engine.current_mode(), Some(PowerMode::Work));
    assert_eq!(mock.read_profile(engine.platform_manager()).unwrap(), "balanced");
    assert_eq!(mock.read_epp(engine.cpu_manager()).unwrap(), "balance_power");
    assert!(mock.read_boost(engine.cpu_manager()).unwrap());
}

#[test]
fn test_game_battery_on_low_power_acpi_hardware() {
    let mut mock = MockSystem::new();
    // Live OMEN hardware platform_profile_choices: "low-power balanced performance"
    let pp_path = mock.setup_platform_profile("balanced", &["low-power", "balanced", "performance"]);
    mock.add_boost("1");
    mock.add_policy(0, "balance_power", &FOUR_EPPS);

    let mut engine = mock.engine();

    // Setting GameBattery should map "power-saver" -> "low-power"
    mock.set_mode(&mut engine, PowerMode::GameBattery).unwrap();

    assert_eq!(engine.current_mode(), Some(PowerMode::GameBattery));
    assert_eq!(engine.active_definition().unwrap().platform_profile, "power-saver");

    let raw_pp = mock.read(&pp_path).unwrap();
    assert_eq!(raw_pp.trim(), "low-power");
    assert_eq!(mock.read_profile(engine.platform_manager()).unwrap(), "low-power");

    assert_eq!(mock.read_epp(engine.cpu_manager()).unwrap(), "power");
    assert!(!mock.read_boost(engine.cpu_manager()).unwrap());
}

#[test]
fn test_game_to_work_async_governor_transition() {
    let mut mock = MockSystem::new();
    mock.setup_platform_profile("balanced", &["low-power", "balanced", "performance"]);
    mock.add_boost("1");
    let (_, _, gov0) = mock.add_policy_with_governor(0, "balance_power", "powersave", &FOUR_EPPS);
    let (_, _, gov1) = mock.add_policy_with_governor(1, "balance_power", "powersave", &FOUR_EPPS);

    let mut engine = mock.engine();

    // 1. Set to Game
    mock.set_mode(&mut engine, PowerMode::Game).unwrap();
    assert_eq!(engine.current_mode(), Some(PowerMode::Game));

    // Simulate driver/PPD setting cpufreq governors to "performance"
    mock.write_file(&gov0, "performance\n");
    mock.write_file(&gov1, "performance\n");

    // The governors switch to "powersave" 60 ms later
    let t = mock.clock_ms + 60;
    mock.scheduled.push((t, gov0.clone(), "powersave\n".to_string()));
    mock.scheduled.push((t, gov1.clone(), "powersave\n".to_string()));

    // 2. Transition back to Work: the engine polls until no governor is "performance"
    engine.set_governor_timeout(500);
    mock.set_mode(&mut engine, PowerMode::Work).unwrap();

    assert_eq!(engine.current_mode(), Some(PowerMode::Work));
    assert_eq!(mock.read_epp(engine.cpu_manager()).unwrap(), "balance_power");
    assert_eq!(mock.read_profile(engine.platform_manager()).unwrap(), "balanced");
    assert!(mock.read_boost(engine.cpu_manager()).unwrap());
    assert!(mock.clock_ms >= 60 && mock.clock_ms < 500);
}

#[test]
fn test_game_to_work_governor_timeout_and_rollback() {
    let mut mock = MockSystem::new();
    mock.setup_platform_profile("balanced", &["low-power", "balanced", "performance"]);
    mock.add_boost("1");
    let (_, _, gov0) = mock.add_policy_with_governor(0, "balance_power", "powersave", &FOUR_EPPS);

    let mut engine = mock.engine();

    // 1. Set to Game
    mock.set_mode(&mut engine, PowerMode::Game).unwrap();
    assert_eq!(engine.current_mode(), Some(PowerMode::Game));

    // Simulate locked "performance" governor that never switches away
    mock.write_file(&gov0, "performance\n");

    // Set short timeout of 80ms
    engine.set_governor_timeout(80);

    // 2. Transition back to Work should time out on governor
    let res = mock.set_mode(&mut engine, PowerMode::Work);
    assert!(res.is_err());

    match res.unwrap_err() {
        PowerEngineError::CpuError(CpuEnergyError::GovernorTimeout { target_epp, .. }) => {
            assert_eq!(target_epp, "balance_power");
        }
        other => panic!("Expected GovernorTimeout, got: {:?}", other),
    }

    // State must remain Game
    assert_eq!(engine.current_mode(), Some(PowerMode::Game));

    // Platform profile must have been rolled back to "performance"
    assert_eq!(mock.read_profile(engine.platform_manager()).unwrap(), "performance");

    // EPP must remain "performance"
    assert_eq!(mock.read_epp(engine.cpu_manager()).unwrap(), "performance");
}

#[test]
fn test_repeated_setting_same_mode_is_idempotent() {
    let mut mock = MockSystem::new();
    let pp = mock.setup_platform_profile("balanced", &["balanced", "performance", "power-saver"]);
    let boost = mock.add_boost("1");
    mock.add_policy(0, "balance_power", &THREE_EPPS);

    let mut engine = mock.engine();

    mock.set_mode(&mut engine, PowerMode::Work).unwrap();
    assert_eq!(engine.current_mode(), Some(PowerMode::Work));

    // Delete underlying nodes to verify that repeated set_mode does not touch hardware
    mock.remove_file(&pp);
    mock.remove_file(&boost);

    // Setting Work again should immediately return Ok without accessing missing files
    let res = mock.set_mode(&mut engine, PowerMode::Work);
    assert!(res.is_ok());
    assert_eq!(engine.current_mode(), Some(PowerMode::Work));
}

#[test]
fn test_failure_during_epp_transition_and_rollback() {
    let mut mock = MockSystem::new();
    mock.setup_platform_profile("balanced", &["balanced", "performance", "power-saver"]);
    mock.add_boost("1");
    mock.add_policy(0, "balance_power", &THREE_EPPS);
    let (_, epp1) = mock.add_policy(1, "balance_power", &THREE_EPPS);

    let mut engine = mock.engine();
    mock.set_mode(&mut engine, PowerMode::Work).unwrap();

    // Simulate failure on policy1 EPP write by replacing it with a directory
    mock.make_dir(&epp1);

    // Attempt to transition to Game (requires EPP: performance, PPD: performance)
    let res = mock.set_mode(&mut engine, PowerMode::Game);
    assert!(res.is_err());

    // Mode must not have updated
    assert_eq!(engine.current_mode(), Some(PowerMode::Work));

    // Platform profile must have been rolled back to "balanced"
    assert_eq!(mock.read_profile(engine.platform_manager()).unwrap(), "balanced");

    // Policy0 EPP must have been rolled back to "balance_power"
    assert_eq!(mock.read_epp(engine.cpu_manager()).unwrap(), "balance_power");
}

#[test]
fn test_failure_during_boost_transition_and_rollback() {
    let mut mock = MockSystem::new();
    mock.setup_platform_profile("balanced", &["balanced", "performance", "power-saver"]);
    let boost = mock.add_boost("1");
    let (_, epp0) = mock.add_policy(0, "balance_power", &THREE_EPPS);

    let mut engine = mock.engine();
    mock.set_mode(&mut engine, PowerMode::Work).unwrap();

    // Make boost unwritable by replacing with a directory
    mock.make_dir(&boost);

    // Transition to GameBattery (PPD: power-saver, EPP: power, Boost: OFF)
    let res = mock.set_mode(&mut engine, PowerMode::GameBattery);
    assert!(res.is_err());

    // State must remain Work
    assert_eq!(engine.current_mode(), Some(PowerMode::Work));

    // Platform profile must be rolled back to "balanced"
    assert_eq!(mock.read_profile(engine.platform_manager()).unwrap(), "balanced");

    // EPP must be rolled back to "balance_power"
    let current_epp = mock.read(&epp0).unwrap();
    assert_eq!(current_epp.trim(), "balance_power");
}

#[test]
fn unsupported_platform_profile_is_refused_before_any_write() {
    let mut mock = MockSystem::new();
    let pp = mock.setup_platform_profile("balanced", &["balanced", "performance"]);
    mock.add_boost("1");
    let (_, epp0) = mock.add_policy(0, "balance_power", &THREE_EPPS);

    let mut engine = mock.engine();
    let res = mock.set_mode(&mut engine, PowerMode::GameBattery);
    match res {
        Err(PowerEngineError::UnsupportedPlatformProfile { requested, available }) => {
            assert_eq!(requested, "power-saver");
            assert_eq!(available, vec!["balanced", "performance"]);
        }
        other => panic!("Expected UnsupportedPlatformProfile, got {:?}", other),
    }
    assert_eq!(engine.current_mode(), None);
    assert_eq!(mock.read(&pp).unwrap().trim(), "balanced");
    assert_eq!(mock.read(&epp0).unwrap().trim(), "balance_power");
}

#[test]
fn error_messages_name_the_failure() {
    let e = PowerEngineError::CpuError(CpuEnergyError::BoostNotSupported { path: "/b".into() });
    assert!(e.message().starts_with("CPU Energy error: "));
    assert!(e.message().contains("/b"));
    assert_eq!(
        PowerEngineError::PlatformProfileNotSupported.message(),
        "ACPI platform_profile interface is not supported"
    );
}

/// The daemon's test system: a platform profile offering both low-power
/// names, a boost flag and two policies.
fn service_system() -> (MockSystem, String, String, String, String) {
    let mut mock = MockSystem::new();
    let pp = mock.setup_platform_profile("balanced", &["low-power", "power-saver", "balanced", "performance"]);
    let boost = mock.add_boost("1");
    let (_, epp0) = mock.add_policy(0, "balance_power", &ALL_EPPS);
    let (_, epp1) = mock.add_policy(1, "balance_power", &ALL_EPPS);
    (mock, pp, boost, epp0, epp1)
}

fn create_test_service(mock: &MockSystem) -> PowerService {
    PowerService::with_engine(mock.engine(), PowerConfig::default())
}

/// What the `SetPowerMode` method does with the library.
fn dbus_set_power_mode(mock: &mut MockSystem, service: &mut PowerService, mode: &str) -> String {
    match PowerService::begin_set_power_mode(mode) {
        Err(reply) => reply,
        Ok(m) => {
            let mut t = service.engine.set_mode(m);
            mock.drive(|ev| (t.step(ev), t.finished()));
            let o = t.finish();
            service.finish_set_power_mode(o)
        }
    }
}

/// What the legacy `SetPowerProfile` method does with the library.
fn dbus_set_power_profile(mock: &mut MockSystem, service: &mut PowerService, profile: &str) -> String {
    match PowerService::begin_set_power_profile(profile) {
        Err(reply) => reply.to_string(),
        Ok(m) => {
            let mut t = service.engine.set_mode(m);
            mock.drive(|ev| (t.step(ev), t.finished()));
            let o = t.finish();
            service.finish_set_power_profile(o).0.to_string()
        }
    }
}

fn trimmed(mock: &MockSystem, path: &str) -> String {
    mock.read(path).unwrap().trim().to_string()
}

#[test]
fn test_dbus_get_and_set_power_mode_all_three_modes() {
    let (mut mock, pp, boost, epp0, epp1) = service_system();
    let mut service = create_test_service(&mock);

    assert_eq!(service.get_power_mode(), "unknown");

    // 1. Set Work mode
    let resp = dbus_set_power_mode(&mut mock, &mut service, "work");
    assert_eq!(resp, "OK");
    assert_eq!(service.get_power_mode(), "work");
    assert_eq!(trimmed(&mock, &pp), "balanced");
    assert_eq!(trimmed(&mock, &epp0), "balance_power");
    assert_eq!(trimmed(&mock, &epp1), "balance_power");
    assert_eq!(trimmed(&mock, &boost), "1");

    // 2. Set Game-Battery mode
    let resp = dbus_set_power_mode(&mut mock, &mut service, "game-battery");
    assert_eq!(resp, "OK");
    assert_eq!(service.get_power_mode(), "game-battery");
    assert_eq!(trimmed(&mock, &pp), "power-saver");
    assert_eq!(trimmed(&mock, &epp0), "power");
    assert_eq!(trimmed(&mock, &epp1), "power");
    assert_eq!(trimmed(&mock, &boost), "0");

    // 3. Set Game mode
    let resp = dbus_set_power_mode(&mut mock, &mut service, "game");
    assert_eq!(resp, "OK");
    assert_eq!(service.get_power_mode(), "game");
    assert_eq!(trimmed(&mock, &pp), "performance");
    assert_eq!(trimmed(&mock, &epp0), "performance");
    assert_eq!(trimmed(&mock, &epp1), "performance");
    assert_eq!(trimmed(&mock, &boost), "1");
    assert_eq!(service.config.power_profile, "performance");
}

#[test]
fn test_dbus_legacy_set_power_profile_routed_through_engine() {
    let (mut mock, pp, boost, epp0, _) = service_system();
    let mut service = create_test_service(&mock);

    // Legacy "performance" -> Game
    let resp = dbus_set_power_profile(&mut mock, &mut service, "performance");
    assert_eq!(resp, "OK");
    assert_eq!(service.get_power_mode(), "game");
    assert_eq!(trimmed(&mock, &pp), "performance");
    assert_eq!(trimmed(&mock, &epp0), "performance");
    assert_eq!(trimmed(&mock, &boost), "1");

    // Legacy "balanced" -> Work
    let resp = dbus_set_power_profile(&mut mock, &mut service, "balanced");
    assert_eq!(resp, "OK");
    assert_eq!(service.get_power_mode(), "work");
    assert_eq!(trimmed(&mock, &pp), "balanced");
    assert_eq!(trimmed(&mock, &epp0), "balance_power");
    assert_eq!(trimmed(&mock, &boost), "1");

    // Legacy "power-saver" -> GameBattery
    let resp = dbus_set_power_profile(&mut mock, &mut service, "power-saver");
    assert_eq!(resp, "OK");
    assert_eq!(service.get_power_mode(), "game-battery");
    assert_eq!(trimmed(&mock, &pp), "power-saver");
    assert_eq!(trimmed(&mock, &epp0), "power");
    assert_eq!(trimmed(&mock, &boost), "0");

    // Legacy invalid profile -> FAIL and engine state unchanged
    let resp = dbus_set_power_profile(&mut mock, &mut service, "nonexistent_profile");
    assert_eq!(resp, "FAIL");
    assert_eq!(service.get_power_mode(), "game-battery");
}

#[test]
fn test_dbus_set_power_mode_invalid_string() {
    let (mut mock, _, _, _, _) = service_system();
    let mut service = create_test_service(&mock);

    let resp = dbus_set_power_mode(&mut mock, &mut service, "overclock_extreme");
    assert!(resp.starts_with("FAIL:"));
    assert_eq!(resp, "FAIL: unrecognized mode 'overclock_extreme'");
    assert_eq!(service.get_power_mode(), "unknown");
}

#[test]
fn test_failed_transition_and_rollback_via_dbus() {
    let (mut mock, pp, boost, epp0, epp1) = service_system();
    let mut service = create_test_service(&mock);

    // Start cleanly in Work mode
    dbus_set_power_mode(&mut mock, &mut service, "work");
    assert_eq!(service.get_power_mode(), "work");

    // Inject a deterministic failure on the policy1 EPP write
    mock.make_dir(&epp1);

    // Attempt transition to Game (which requires EPP: performance, PPD: performance)
    let resp = dbus_set_power_mode(&mut mock, &mut service, "game");
    assert!(resp.starts_with("FAIL:"), "Expected FAIL response, got: {}", resp);

    // Authority mode must still be Work
    assert_eq!(service.get_power_mode(), "work");
    assert_eq!(trimmed(&mock, &pp), "balanced");
    assert_eq!(trimmed(&mock, &epp0), "balance_power");
    assert_eq!(trimmed(&mock, &boost), "1");
    assert_eq!(service.config.power_profile, "balanced");
}

#[test]
fn test_restore_pre_app_state_does_not_write_power_profile() {
    let (mut mock, pp, _, _, _) = service_system();
    let mut service = create_test_service(&mock);

    // Set authoritative mode to Work
    dbus_set_power_mode(&mut mock, &mut service, "work");

    // Populate app_state with a pre_app_state containing "performance"
    service.app_state = AppState {
        active_app: Some("steam_12345".to_string()),
        pre_app_state: Some(("performance".to_string(), "max".to_string())),
    };
    let fan = service.app_state.restore();
    assert_eq!(fan, Some("max".to_string()));
    assert!(service.app_state.active_app.is_none());
    assert!(service.app_state.pre_app_state.is_none());

    // The saved power profile is still "balanced"
    assert_eq!(service.config.power_profile, "balanced");

    // The engine mode is still Work
    assert_eq!(service.get_power_mode(), "work");
    assert_eq!(trimmed(&mock, &pp), "balanced");
}

#[test]
fn profile_readback_mismatch_restores_the_previous_profile() {
    let mut mock = MockSystem::new();
    let pp = mock.setup_platform_profile("balanced", &["balanced", "performance", "power-saver"]);
    mock.add_boost("1");
    let (_, epp0) = mock.add_policy(0, "balance_power", &THREE_EPPS);
    let mut engine = mock.engine();

    // The firmware accepts the write but keeps its profile.
    mock.sticky.insert(pp.clone());
    let res = mock.set_mode(&mut engine, PowerMode::Game);
    match res {
        Err(PowerEngineError::VerificationFailed { reason, .. }) => {
            assert!(reason.contains("readback mismatch"));
        }
        other => panic!("Expected VerificationFailed, got {:?}", other),
    }
    assert_eq!(engine.current_mode(), None);
    // The profile was written, then the previous one was written back.
    assert_eq!(
        mock.writes,
        vec![format!("{}=performance", pp), format!("{}=balanced", pp)]
    );
    assert_eq!(mock.read(&epp0).unwrap().trim(), "balance_power");
}

#[test]
fn failed_profile_write_still_writes_back_and_returns_its_error() {
    let mut mock = MockSystem::new();
    let pp = mock.setup_platform_profile("balanced", &["balanced", "performance", "power-saver"]);
    mock.add_policy(0, "balance_power", &THREE_EPPS);
    let mut engine = mock.engine();
    // The profile file turns into a directory after discovery.
    mock.make_dir(&pp);
    let res = mock.set_mode(&mut engine, PowerMode::Game);
    match res {
        // Reading the previous profile failed, so nothing is written back.
        Err(PowerEngineError::PlatformProfileIoError { action, .. }) => {
            assert_eq!(action, "open platform profile for writing");
        }
        other => panic!("Expected PlatformProfileIoError, got {:?}", other),
    }
    assert_eq!(mock.writes, vec![format!("{}=performance", pp)]);
    assert_eq!(engine.current_mode(), None);
}
