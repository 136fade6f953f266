use omen_hub::power_model::PowerMode;
use omen_hub::power_service::{
    available_profiles, detect_app_id, gpu_power_values, is_pid_dir, mode_profile_name,
    normalize_profile, power_profile_report, rapl_plan, validate_power_limits, active_app, cpu_is_amd,
    AppDecision, AppProfile, AppState, ChoicesProbe, CommandOutput, PowerConfig, PowerService,
    ProbeAction, ProbeEvent, ProfileDetection, RaplPlan,
};

#[test]
fn test_parse_power_mode_mappings() {
    assert_eq!(PowerService::parse_power_mode("work"), Some(PowerMode::Work));
    assert_eq!(PowerService::parse_power_mode("balanced"), Some(PowerMode::Work));
    assert_eq!(PowerService::parse_power_mode("default"), Some(PowerMode::Work));

    assert_eq!(PowerService::parse_power_mode("game-battery"), Some(PowerMode::GameBattery));
    assert_eq!(PowerService::parse_power_mode("gamebattery"), Some(PowerMode::GameBattery));
    assert_eq!(PowerService::parse_power_mode("power-saver"), Some(PowerMode::GameBattery));
    assert_eq!(PowerService::parse_power_mode("powersaver"), Some(PowerMode::GameBattery));
    assert_eq!(PowerService::parse_power_mode("quiet"), Some(PowerMode::GameBattery));
    assert_eq!(PowerService::parse_power_mode("low-power"), Some(PowerMode::GameBattery));

    assert_eq!(PowerService::parse_power_mode("game"), Some(PowerMode::Game));
    assert_eq!(PowerService::parse_power_mode("game-plugged"), Some(PowerMode::Game));
    assert_eq!(PowerService::parse_power_mode("gameplugged"), Some(PowerMode::Game));
    assert_eq!(PowerService::parse_power_mode("performance"), Some(PowerMode::Game));
    assert_eq!(PowerService::parse_power_mode("gaming"), Some(PowerMode::Game));
    assert_eq!(PowerService::parse_power_mode("max"), Some(PowerMode::Game));

    assert_eq!(PowerService::parse_power_mode("unknown-profile"), None);
    assert_eq!(PowerService::parse_power_mode(""), None);
}

#[test]
fn profile_names_round_trip() {
    for m in PowerMode::all() {
        assert_eq!(PowerService::parse_power_mode(mode_profile_name(m)), Some(m));
        assert_eq!(normalize_profile(mode_profile_name(m)), mode_profile_name(m));
    }
    assert_eq!(normalize_profile("Custom"), "performance");
    assert_eq!(normalize_profile("low-power"), "power-saver");
    assert_eq!(normalize_profile("cool"), "power-saver");
    assert_eq!(normalize_profile("whatever"), "balanced");
}

#[test]
fn power_limits_and_clamps() {
    assert_eq!(validate_power_limits(45, 30), Some((45, 45)));
    assert_eq!(validate_power_limits(45, 80), Some((45, 80)));
    assert_eq!(validate_power_limits(0, 80), None);
    assert_eq!(validate_power_limits(201, 80), None);
    assert_eq!(validate_power_limits(45, 251), None);
    let mut c = PowerConfig::default();
    assert_eq!(c.set_power_limits(true, 60, 50), "OK");
    assert!(c.pl_enabled);
    assert_eq!((c.pl1_w, c.pl2_w), (60, 60));
    assert_eq!(c.set_power_limits(false, 300, 50), "FAIL");
    assert_eq!((c.pl1_w, c.pl2_w), (60, 60));
    c.set_undervolt(-400);
    assert_eq!(c.undervolt_mv, -250);
    c.set_undervolt(100);
    assert_eq!(c.undervolt_mv, 100);
    c.set_tcc_offset(99);
    assert_eq!(c.tcc_offset, 15);
    c.set_tcc_offset(-1);
    assert_eq!(c.tcc_offset, 0);
}

fn probe(exists: bool, under: Option<&str>, dash: Option<&str>) -> ChoicesProbe {
    ChoicesProbe { exists, underscore: under.map(String::from), dash: dash.map(String::from) }
}

#[test]
fn available_profiles_from_choices() {
    let p = vec![
        probe(false, Some("performance"), None),
        probe(true, Some("   "), Some("[low-power] balanced performance quiet Custom\n")),
        probe(true, Some("balanced"), None),
    ];
    assert_eq!(available_profiles(&p), vec!["power-saver", "balanced", "performance"]);
    let p = vec![probe(true, Some("performance balanced"), None)];
    assert_eq!(available_profiles(&p), vec!["performance", "balanced"]);
    assert_eq!(available_profiles(&vec![]), vec!["power-saver", "balanced", "performance"]);
}

#[test]
fn power_profile_report_prefers_live_values() {
    let mut c = PowerConfig::default();
    c.power_profile = "power-saver".into();
    let r = power_profile_report(&c, None, Some("35000000\n".into()), Some("junk".into()), vec![]);
    assert_eq!(r.active, "power-saver");
    assert_eq!(r.power_mode, "unknown");
    assert_eq!(r.pl1_w, 35);
    assert_eq!(r.pl2_w, 80);
    let r = power_profile_report(&c, Some(PowerMode::Game), None, None, vec!["balanced".into()]);
    assert_eq!(r.active, "performance");
    assert_eq!(r.power_mode, "game");
    assert_eq!(r.pl1_w, 45);
}

fn env(items: &[&str]) -> Vec<String> {
    items.iter().map(|s| s.to_string()).collect()
}

#[test]
fn game_detection_from_environment() {
    assert_eq!(detect_app_id(&env(&["PATH=/bin", "SteamAppId=570"])), Some("steam_570".into()));
    assert_eq!(
        detect_app_id(&env(&["STEAM_COMPAT_APP_ID=", "LUTRIS_GAME_SLUG=doom=x", "FLATPAK_ID=org.a"])),
        Some("lutris_doom".into())
    );
    assert_eq!(detect_app_id(&env(&["FLATPAK_ID=org.b"])), Some("flatpak_org.b".into()));
    assert_eq!(detect_app_id(&env(&["HOME=/root"])), None);
    assert!(is_pid_dir("1234"));
    assert!(!is_pid_dir("self"));
    let profiles = vec![AppProfile { app_id: "steam_570".into(), fan_mode: Some("max".into()) }];
    let ids = vec![Some("steam_1".to_string()), None, Some("steam_570".to_string())];
    assert_eq!(active_app(&ids, &profiles), Some("steam_570".into()));
}

#[test]
fn app_monitor_saves_and_restores_fan_state() {
    let mut st = AppState::new();
    let game = Some("steam_12345".to_string());
    assert_eq!(st.decide(true, true, &game), AppDecision::Launch);
    assert!(st.needs_saved_state());
    st.launch("steam_12345".into(), "balanced".into(), None);
    assert_eq!(st.pre_app_state, Some(("balanced".to_string(), "auto".to_string())));
    assert_eq!(st.decide(true, true, &game), AppDecision::Idle);
    assert_eq!(st.decide(true, true, &None), AppDecision::Restore);
    assert_eq!(st.decide(false, true, &game), AppDecision::Restore);
    assert_eq!(st.restore(), Some("auto".to_string()));
    assert!(st.active_app.is_none() && st.pre_app_state.is_none());
    assert_eq!(st.decide(true, true, &None), AppDecision::Idle);
}

#[test]
fn restore_pre_app_state_returns_only_the_fan_mode() {
    let mut st = AppState {
        active_app: Some("steam_12345".to_string()),
        pre_app_state: Some(("performance".to_string(), "max".to_string())),
    };
    assert_eq!(st.restore(), Some("max".to_string()));
    assert!(st.active_app.is_none());
    assert!(st.pre_app_state.is_none());
}

#[test]
fn rapl_and_gpu_plans() {
    match rapl_plan("AMD Ryzen 7 7840HS", 45, 65) {
        RaplPlan::Amd { args } => assert_eq!(
            args,
            vec!["--stapm-limit=45000", "--slow-limit=45000", "--fast-limit=65000"]
        ),
        other => panic!("expected AMD plan, got {:?}", other),
    }
    assert_eq!(
        rapl_plan("Intel Core i7", 45, 65),
        RaplPlan::Intel { pl1_uw: "45000000".into(), pl2_uw: "65000000".into() }
    );
    assert!(cpu_is_amd("amd ryzen 9"));
    assert!(!cpu_is_amd("Intel(R) Core(TM) i9"));
    match rapl_plan("AMD Ryzen 9", 5000, 6000) {
        RaplPlan::Amd { args } => assert_eq!(args[2], "--fast-limit=6000000"),
        other => panic!("expected AMD plan, got {:?}", other),
    }
    assert_eq!(gpu_power_values("performance"), ("1", "1"));
    assert_eq!(gpu_power_values("balanced"), ("0", "1"));
    assert_eq!(gpu_power_values("power-saver"), ("0", "0"));
}

fn run_detection(custom: bool, answers: Vec<ProbeEvent>) -> (Vec<ProbeAction>, String) {
    let mut d = ProfileDetection::new(custom);
    let mut actions = Vec::new();
    let mut ev = ProbeEvent::Start;
    let mut answers = answers.into_iter();
    loop {
        let a = d.step(ev);
        if d.finished() {
            return (actions, d.outcome().unwrap());
        }
        actions.push(a);
        ev = answers.next().expect("an answer for each probe");
    }
}

#[test]
fn profile_detection_order() {
    let ok = |s: &str| Some(CommandOutput { success: true, stdout: s.to_string() });
    let (acts, p) = run_detection(false, vec![ProbeEvent::Ran(ok("Power Profile: Battery\n"))]);
    assert_eq!(p, "power-saver");
    assert_eq!(acts.len(), 1);
    let (acts, p) = run_detection(
        false,
        vec![ProbeEvent::Ran(None), ProbeEvent::Ran(ok("  PERFORMANCE\n"))],
    );
    assert_eq!(p, "performance");
    assert_eq!(acts.len(), 2);
    let (acts, p) = run_detection(
        true,
        vec![
            ProbeEvent::ReadDone(Err("missing".into())),
            ProbeEvent::ReadDone(Ok("low-power\n".into())),
        ],
    );
    assert_eq!(p, "power-saver");
    assert_eq!(
        acts[0],
        ProbeAction::Read { path: "/sys/firmware/acpi/platform_profile".into() }
    );
    let mut answers: Vec<ProbeEvent> = (0..3).map(|_| ProbeEvent::ReadDone(Err("no".into()))).collect();
    answers.push(ProbeEvent::ReadDone(Ok("1\n".into())));
    let (_, p) = run_detection(true, answers);
    assert_eq!(p, "performance");
    let all_missing: Vec<ProbeEvent> = (0..7).map(|_| ProbeEvent::ReadDone(Err("no".into()))).collect();
    let (_, p) = run_detection(true, all_missing);
    assert_eq!(p, "balanced");
}

#[test]
fn set_power_requests_decide_unknown_modes() {
    assert_eq!(PowerService::begin_set_power_mode(" Game "), Ok(PowerMode::Game));
    assert_eq!(
        PowerService::begin_set_power_mode("turbo"),
        Err("FAIL: unrecognized mode 'turbo'".to_string())
    );
    assert_eq!(PowerService::begin_set_power_profile("performance"), Ok(PowerMode::Game));
    assert_eq!(PowerService::begin_set_power_profile("turbo"), Err("FAIL"));
}
