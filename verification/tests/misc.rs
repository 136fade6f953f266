use omen_hub::assets::get_asset_path;
use omen_hub::automation::{ac_online_path, ac_power_connected, AcChange, PowerAutomationService};
use omen_hub::ec::{check_unsafe_model, LinuxEcController};

#[test]
fn asset_lookup_order() {
    assert_eq!(get_asset_path("logo.png", &vec![false, true, true]), "/usr/share/omen-space/assets/logo.png");
    assert_eq!(get_asset_path("logo.png", &vec![true, true, true]), "/usr/share/omen-hub/assets/logo.png");
    assert_eq!(get_asset_path("logo.png", &vec![false, false, true]), "src/omen-gui/assets/logo.png");
    assert_eq!(get_asset_path("logo.png", &vec![false, false, false]), "assets/logo.png");
}

#[test]
fn ac_detection() {
    let names: Vec<String> = ["BAT0", "ADP1", "AC"].iter().map(|s| s.to_string()).collect();
    assert_eq!(
        ac_online_path("/sys/class/power_supply", &names),
        Some("/sys/class/power_supply/ADP1/online".to_string())
    );
    assert_eq!(ac_online_path("/x", &vec!["BAT1".to_string()]), None);
    assert!(ac_power_connected(Some(Ok("1\n".into()))));
    assert!(!ac_power_connected(Some(Ok("0\n".into()))));
    assert!(ac_power_connected(Some(Err("io".into()))));
    assert!(ac_power_connected(None));
}

#[test]
fn ac_monitor_reports_changes() {
    let mut m = PowerAutomationService::new();
    assert_eq!(m.observe(true), AcChange::First);
    assert_eq!(m.observe(true), AcChange::Unchanged);
    assert_eq!(m.observe(false), AcChange::Disconnected);
    assert_eq!(m.observe(true), AcChange::Connected);
}

#[test]
fn ec_detection_is_inert() {
    assert!(check_unsafe_model("OMEN Transcend 14-fb0xxx", ""));
    assert!(check_unsafe_model("", "8C58"));
    assert!(!check_unsafe_model("OMEN 16-wf0xxx", "8bab"));
    let ec = LinuxEcController::new(Some(" 8D24 \n".into()), None, true);
    assert!(ec.has_ec_access());
    assert!(!ec.needs_ec_fallback());
    assert!(ec.is_unsafe_model());
    let ec = LinuxEcController::new(None, Some("16-ah0".into()), false);
    assert!(!ec.has_ec_access());
    assert!(ec.is_unsafe_model());
}

#[test]
fn white_space_agrees_with_std_on_every_char() {
    for u in 0u32..0x110000 {
        if let Some(c) = char::from_u32(u) {
            assert_eq!(omen_hub::text::is_white_space(c), c.is_whitespace(), "U+{:04X}", u);
        }
    }
}
