use omen_hub::fan::{
    choose_hwmon, fallback_path, fan_number, fan_reply, fans_from_listing, status_percentage,
    FanEffect, FanInputFile, FanService, FanState,
};
use omen_hub::text::remove_str;
use omen_hub::sysfs::{SysfsAction, SysfsEvent, WriteFailure};
use std::collections::HashMap;

#[test]
fn test_percentage_validation() {
    assert!(FanService::validate_percentage(0).is_err());
    assert!(FanService::validate_percentage(101).is_err());
    assert!(FanService::validate_percentage(200).is_err());
    assert!(FanService::validate_percentage(1).is_ok());
    assert!(FanService::validate_percentage(50).is_ok());
    assert!(FanService::validate_percentage(100).is_ok());
}

#[test]
fn test_pwm_conversion() {
    assert_eq!(FanService::pct_to_pwm(0), 0);
    assert_eq!(FanService::pct_to_pwm(50), 128);
    assert_eq!(FanService::pct_to_pwm(100), 255);

    assert_eq!(FanService::pwm_to_pct(0), 0);
    assert_eq!(FanService::pwm_to_pct(128), 50);
    assert_eq!(FanService::pwm_to_pct(255), 100);
}

#[test]
fn conversions_match_float_rounding() {
    for pct in 0u32..=120 {
        let expected = ((pct.min(100) as f64 * 255.0) / 100.0).round() as u32;
        assert_eq!(FanService::pct_to_pwm(pct), expected);
    }
    for pwm in 0u32..=300 {
        let expected = ((pwm.min(255) as f64 * 100.0) / 255.0).round() as u32;
        assert_eq!(FanService::pwm_to_pct(pwm), expected);
    }
    assert_eq!(FanService::pct_to_pwm(40), 102);
}

#[test]
fn validation_messages() {
    assert!(FanService::validate_percentage(0).unwrap_err().contains("prohibited"));
    assert_eq!(
        FanService::validate_percentage(150).unwrap_err(),
        "Fan percentage 150% is out of range (must be between 1 and 100)"
    );
}

/// An in-memory hwmon directory that performs what a fan write asks for.
struct MockHwmon {
    files: HashMap<String, String>,
    unwritable: Vec<String>,
    log: Vec<String>,
}

impl MockHwmon {
    fn new(dir: &str) -> Self {
        let mut files = HashMap::new();
        files.insert(format!("{}/pwm1_enable", dir), "2\n".to_string());
        files.insert(format!("{}/pwm1", dir), "128\n".to_string());
        MockHwmon { files, unwritable: Vec::new(), log: Vec::new() }
    }

    fn perform(&mut self, a: SysfsAction) -> SysfsEvent {
        match a {
            SysfsAction::Read { path } => match self.files.get(&path) {
                Some(c) => SysfsEvent::ReadDone(Ok(c.clone())),
                None => SysfsEvent::ReadDone(Err("No such file or directory".into())),
            },
            SysfsAction::Write { path, value } | SysfsAction::Replace { path, value } => {
                self.log.push(format!("{}={}", path, value));
                if self.unwritable.contains(&path) {
                    SysfsEvent::WriteDone(Err(WriteFailure::Open("Permission denied".into())))
                } else {
                    self.files.insert(path, value);
                    SysfsEvent::WriteDone(Ok(()))
                }
            }
            SysfsAction::Probe { path } => SysfsEvent::Probed(self.files.contains_key(&path)),
            SysfsAction::Sleep { ms } => SysfsEvent::Slept { elapsed_ms: ms },
            SysfsAction::Done => SysfsEvent::Start,
        }
    }

    fn get(&self, name: &str) -> String {
        self.files[&format!("/hw/{}", name)].trim().to_string()
    }
}

fn state(hwmon: Option<&str>, mode: &str, manual: Option<u32>) -> FanState {
    FanState {
        hwmon_path: hwmon.map(String::from),
        found_fans: vec![1, 2],
        max_speeds: HashMap::from([(1, 6000), (2, 6000)]),
        fallback_paths: HashMap::new(),
        fan_count: 2,
        mode: mode.to_string(),
        custom_curve_json: "[]".to_string(),
        last_targets: HashMap::new(),
        manual_target_pct: manual,
        last_written_duty: None,
        last_written_duty_time: None,
    }
}

fn run(mut w: omen_hub::fan::FanWrite, hw: &mut MockHwmon) -> Result<FanEffect, String> {
    let mut ev = SysfsEvent::Start;
    loop {
        let a = w.step(ev);
        if w.finished() {
            return w.outcome().unwrap();
        }
        ev = hw.perform(a);
    }
}

#[test]
fn test_mock_sysfs_auto_mode() {
    let mut hw = MockHwmon::new("/hw");
    let mut st = state(Some("/hw"), "manual", Some(60));
    let e = run(FanService::set_mode_internal(&st, "auto"), &mut hw).unwrap();
    st.apply(e, 1);
    assert_eq!(st.mode, "auto");
    assert!(st.manual_target_pct.is_none());
    assert_eq!(hw.get("pwm1_enable"), "2");
}

#[test]
fn test_mock_sysfs_manual_mode_and_speed() {
    let mut hw = MockHwmon::new("/hw");
    let mut st = state(Some("/hw"), "auto", None);
    let e = run(FanService::set_fan_speed_internal(&st, 50), &mut hw).unwrap();
    st.apply(e, 1);
    assert_eq!(st.mode, "manual");
    assert_eq!(st.manual_target_pct, Some(50));
    assert_eq!(hw.get("pwm1_enable"), "1");
    assert_eq!(hw.get("pwm1"), "128");
    assert_eq!(st.last_targets.get(&1), Some(&3000));
    assert_eq!(st.last_targets.get(&2), Some(&3000));
}

#[test]
fn test_mock_sysfs_max_mode() {
    let mut hw = MockHwmon::new("/hw");
    let mut st = state(Some("/hw"), "auto", None);
    let e = run(FanService::set_mode_internal(&st, "MAX"), &mut hw).unwrap();
    st.apply(e, 1);
    assert_eq!(st.mode, "max");
    assert_eq!(st.last_written_duty, Some(255));
    assert_eq!(hw.get("pwm1_enable"), "0");
}

#[test]
fn test_mock_sysfs_invalid_mode_rejected() {
    let mut hw = MockHwmon::new("/hw");
    let st = state(Some("/hw"), "auto", None);
    let r = run(FanService::set_mode_internal(&st, "dangerous_overclock"), &mut hw);
    assert_eq!(
        r.unwrap_err(),
        "Unsupported fan mode 'dangerous_overclock'. Supported modes: auto, manual, max"
    );
    assert!(hw.log.is_empty());
}

#[test]
fn test_unsupported_hardware() {
    let mut hw = MockHwmon::new("/hw");
    let st = state(None, "auto", None);
    let res = run(FanService::set_mode_internal(&st, "auto"), &mut hw);
    assert!(res.unwrap_err().contains("No HP hwmon device found"));
    let res_speed = run(FanService::set_fan_speed_internal(&st, 50), &mut hw);
    assert!(res_speed.unwrap_err().contains("No HP hwmon device found"));
}

#[test]
fn test_manual_mode_no_automatic_thermal_override() {
    let mut hw = MockHwmon::new("/hw");
    let mut st = state(Some("/hw"), "auto", None);
    let e = run(FanService::set_fan_speed_internal(&st, 40), &mut hw).unwrap();
    st.apply(e, 7);
    assert_eq!(st.mode, "manual");
    assert_eq!(st.manual_target_pct, Some(40));
    assert_eq!(hw.get("pwm1_enable"), "1");
    assert_eq!(hw.get("pwm1"), "102");
    assert_eq!(st.last_written_duty_time, Some(7));
}

#[test]
fn leaving_full_speed_passes_through_auto() {
    let mut hw = MockHwmon::new("/hw");
    hw.files.insert("/hw/pwm1_enable".into(), "0\n".into());
    let st = state(Some("/hw"), "max", Some(30));
    let e = run(FanService::set_mode_internal(&st, "manual"), &mut hw).unwrap();
    assert_eq!(e, FanEffect::Manual { pct: 30, duty: 77 });
    assert_eq!(hw.log, vec!["/hw/pwm1_enable=2", "/hw/pwm1_enable=1", "/hw/pwm1=77"]);
}

#[test]
fn failed_writes_are_reported() {
    let mut hw = MockHwmon::new("/hw");
    hw.unwritable.push("/hw/pwm1".into());
    let st = state(Some("/hw"), "auto", None);
    let r = run(FanService::set_fan_speed_internal(&st, 50), &mut hw);
    assert_eq!(r.unwrap_err(), "Failed to write duty 128 to pwm1");
    let mut hw = MockHwmon::new("/hw");
    hw.files.remove("/hw/pwm1_enable");
    let r = run(FanService::set_mode_internal(&st, "auto"), &mut hw);
    assert_eq!(r.unwrap_err(), "pwm1_enable sysfs path \"/hw/pwm1_enable\" does not exist");
    assert_eq!(fan_reply(&Err("x".into())), "ERR: x");
    assert_eq!(fan_reply(&Ok(())), "OK");
}

#[test]
fn hardware_detection_helpers() {
    assert_eq!(fan_number("fan12_input"), Some(12));
    assert_eq!(fan_number("fan_input"), None);
    assert_eq!(fan_number("fan1_max"), None);
    let names: Vec<String> =
        ["pwm1", "fan2_input", "name", "fan1_input"].iter().map(|s| s.to_string()).collect();
    assert_eq!(fans_from_listing(&names), vec![1, 2]);
    let named = vec![
        ("/sys/class/hwmon/hwmon0".to_string(), Some("acpitz\n".to_string())),
        ("/sys/class/hwmon/hwmon3".to_string(), Some("hp\n".to_string())),
    ];
    assert_eq!(choose_hwmon(&named, &vec![]), Some("/sys/class/hwmon/hwmon3".to_string()));
    let platform = vec![
        None,
        Some(vec!["/p/hwmon/hwmon9".to_string(), "/p/hwmon/hwmon10".to_string()]),
    ];
    assert_eq!(choose_hwmon(&named[..1].to_vec(), &platform), Some("/p/hwmon/hwmon10".to_string()));
    assert_eq!(status_percentage(0, 10, None), 100);
    assert_eq!(status_percentage(1, 128, Some(33)), 33);
    assert_eq!(status_percentage(2, 128, Some(33)), 50);
}

#[test]
fn detected_state_enforces_safe_max_speed() {
    let st = FanState::detected(
        Some("/hw".into()),
        vec![1, 2],
        &vec![Ok("2500\n".into()), Err("missing".into())],
        &vec![],
        Some(Ok("1\n".into())),
        "[]".into(),
    );
    assert_eq!(st.max_speeds.get(&1), Some(&6000));
    assert_eq!(st.max_speeds.get(&2), Some(&6000));
    assert_eq!(st.mode, "manual");
    assert_eq!(st.fan_count, 2);
    assert!(st.needs_saved_mode("auto"));
    let st = FanState::detected(None, vec![], &vec![], &vec![], None, "[]".into());
    assert_eq!(st.mode, "auto");
    assert!(!st.needs_saved_mode("max"));
}

fn input(dir: &str, name: &str) -> FanInputFile {
    FanInputFile { path: format!("{}/{}", dir, name), dir: dir.to_string(), name: name.to_string() }
}

#[test]
fn fallback_input_is_found_outside_the_hp_device() {
    let files = vec![
        input("/sys/class/hwmon/hwmon3", "fan1_input"),
        input("/sys/class/hwmon/hwmon5", "fan2_input"),
        input("/sys/class/hwmon/hwmon6", "fan1_input"),
    ];
    assert_eq!(
        fallback_path("/sys/class/hwmon/hwmon3", &files, 1),
        Some("/sys/class/hwmon/hwmon6/fan1_input".to_string())
    );
    assert_eq!(
        fallback_path("/sys/class/hwmon/hwmon3", &files, 2),
        Some("/sys/class/hwmon/hwmon5/fan2_input".to_string())
    );
    assert_eq!(fallback_path("/sys/class/hwmon/hwmon3", &files, 3), None);
    assert_eq!(fallback_path("/sys/class/hwmon/hwmon6", &files[2..].to_vec(), 1), None);
}

#[test]
fn removing_substrings_matches_str_replace() {
    for (s, p) in [("fan12_input", "fan"), ("fanfan1", "fan"), ("ffan", "fan"), ("abc", ""), ("", "x"), ("aaa", "aa")] {
        assert_eq!(remove_str(s, p), s.replace(p, ""), "{} without {}", s, p);
    }
    assert_eq!(remove_str(&remove_str("fan3_input", "fan"), "_input"), "3");
}

#[test]
fn target_speed_reporting() {
    let mut st = state(Some("/hw"), "auto", None);
    // No target set and no target file: the duty at the fan's maximum speed.
    assert_eq!(st.target_speed(1, None, Ok("128\n".into())), 3012);
    assert_eq!(st.target_speed(1, None, Ok("255".into())), 6000);
    assert_eq!(st.target_speed(9, None, Ok("64".into())), 1506);
    assert_eq!(st.target_speed(1, None, Err("gone".into())), 0);
    // A target file is read when it exists.
    assert_eq!(st.target_speed(1, Some(Ok("4200\n".into())), Ok("128".into())), 4200);
    // A target set by the service wins.
    st.last_targets.insert(1, 2500);
    assert_eq!(st.target_speed(1, Some(Ok("4200".into())), Ok("128".into())), 2500);
    // Without an hwmon device there is no target.
    let st = state(None, "auto", None);
    assert_eq!(st.target_speed(1, None, Ok("128".into())), 0);
    for max in [4000u32, 6000, 6500] {
        for pwm in 0u32..=255 {
            let mut st = state(Some("/hw"), "auto", None);
            st.max_speeds.insert(1, max);
            let expected = ((max as f64 * pwm as f64) / 255.0).round() as u32;
            assert_eq!(st.target_speed(1, None, Ok(pwm.to_string())), expected);
        }
    }
}

#[test]
fn manual_mode_clamps_an_oversized_target() {
    let mut hw = MockHwmon::new("/hw");
    let mut st = state(Some("/hw"), "auto", Some(150));
    let e = run(FanService::set_mode_internal(&st, "manual"), &mut hw).unwrap();
    assert_eq!(e, FanEffect::Manual { pct: 150, duty: 255 });
    st.apply(e, 3);
    assert_eq!(st.manual_target_pct, Some(150));
    assert_eq!(st.last_written_duty, Some(255));
    assert_eq!(hw.get("pwm1"), "255");
}
