use omen_hub::tray::{
    lock_path, power_mode_label, reply_failed, reply_needs_reboot, reported_power_mode, t,
    MenuEntry, TrayAction, TrayCommand, TrayState,
};

#[test]
fn test_tray_power_mode_labels() {
    let label_work = match "work" {
        "game" => t("mode_game"),
        "game-battery" => t("mode_game_battery"),
        _ => t("mode_work"),
    };
    assert_eq!(label_work, "Work");

    let label_game = match "game" {
        "game" => t("mode_game"),
        "game-battery" => t("mode_game_battery"),
        _ => t("mode_work"),
    };
    assert_eq!(label_game, "Game");

    let label_gb = match "game-battery" {
        "game" => t("mode_game"),
        "game-battery" => t("mode_game_battery"),
        _ => t("mode_work"),
    };
    assert_eq!(label_gb, "Game-Battery");
}

fn state() -> TrayState {
    TrayState { power_mode: "work".into(), fan_mode: "auto".into(), gpu_mode: "hybrid".into() }
}

#[test]
fn labels_and_tooltip() {
    assert_eq!(power_mode_label("game-battery"), "Game-Battery");
    assert_eq!(power_mode_label("anything"), "Work");
    let s = TrayState { power_mode: "game".into(), fan_mode: "max".into(), gpu_mode: "discrete".into() };
    assert_eq!(s.tool_tip_description(), "Power: Game\nFan: Max\nGPU: Discrete");
}

#[test]
fn test_fan_mode_options_exclude_ec() {
    let tray = TrayState { power_mode: "work".into(), fan_mode: "auto".into(), gpu_mode: "hybrid".into() };
    let items = tray.menu();

    fn check_menu_items_has_ec(items: &[MenuEntry]) -> bool {
        for item in items {
            if let MenuEntry::SubMenu { items: sub, .. } = item {
                for sub_item in sub {
                    if sub_item.label.to_lowercase().contains("ec") {
                        return true;
                    }
                }
            }
        }
        false
    }

    assert!(
        !check_menu_items_has_ec(&items),
        "Obsolete 'ec' fan option must not be present in tray menu"
    );
}

#[test]
fn menu_checks_the_current_modes() {
    let m = state().menu();
    assert_eq!(m.len(), 7);
    match &m[3] {
        MenuEntry::SubMenu { label, items } => {
            assert_eq!(label, "Fan Mode");
            assert_eq!(items.len(), 2);
            assert!(items[0].checked && !items[1].checked);
        }
        _ => panic!("fan submenu expected"),
    }
}

#[test]
fn activating_an_entry_shows_and_asks_for_its_mode() {
    let mut s = state();
    assert_eq!(s.activate(TrayAction::PowerGameBattery), TrayCommand::SetPowerMode("game-battery".into()));
    assert_eq!(s.power_mode, "game-battery");
    assert_eq!(s.activate(TrayAction::FanMax), TrayCommand::SetFanMode("max".into()));
    assert_eq!(s.fan_mode, "max");
    assert_eq!(s.activate(TrayAction::Exit), TrayCommand::Exit);
    let m = s.menu();
    match &m[2] {
        MenuEntry::SubMenu { items, .. } => assert!(items[2].checked),
        _ => panic!("power submenu expected"),
    }
    s.update(None, Some("auto".into()), None);
    assert_eq!(s.fan_mode, "auto");
    assert_eq!(s.power_mode, "game-battery");
}

#[test]
fn daemon_replies() {
    assert!(reply_failed("FAIL: x"));
    assert!(reply_failed("ERR: y"));
    assert!(!reply_failed("OK"));
    assert!(reply_needs_reboot("OK, REBOOT required"));
    assert!(!reply_needs_reboot("OK"));
    assert_eq!(reported_power_mode("  game \n"), Some("game".to_string()));
    assert_eq!(reported_power_mode(" unknown "), None);
    assert_eq!(reported_power_mode("   "), None);
    assert_eq!(lock_path(None, "1000"), "/tmp/user-1000/omen-tray.lock");
    assert_eq!(lock_path(Some("/run/user/1000".into()), "1000"), "/run/user/1000/omen-tray.lock");
}
