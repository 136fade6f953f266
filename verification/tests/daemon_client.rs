use omen_hub::client::{parse_active_definition, ActivePowerDefinition, HardwareSpecs};

/// What the GUI's serde parse of a definition reply gives: the four
/// required fields, with `description` defaulting to empty.
fn parsed(json: &str) -> Option<ActivePowerDefinition> {
    let v: serde_json::Value = serde_json::from_str(json).ok()?;
    let o = v.as_object()?;
    Some(ActivePowerDefinition {
        mode: o.get("mode")?.as_str()?.to_string(),
        platform_profile: o.get("platform_profile")?.as_str()?.to_string(),
        epp: o.get("epp")?.as_str()?.to_string(),
        boost: o.get("boost")?.as_bool()?,
        description: match o.get("description") {
            Some(d) => d.as_str()?.to_string(),
            None => String::new(),
        },
    })
}

#[test]
fn test_parse_active_definition_valid_json() {
    let json = r#"{"mode":"work","platform_profile":"balanced","epp":"balance_power","boost":true,"description":"Work mode"}"#;
    let def = parse_active_definition("work", parsed(json));
    assert_eq!(def.mode, "work");
    assert_eq!(def.platform_profile, "balanced");
    assert_eq!(def.epp, "balance_power");
    assert!(def.boost);
    assert_eq!(def.description, "Work mode");
}

#[test]
fn test_parse_active_definition_fallbacks() {
    let def_work = parse_active_definition("work", parsed("{}"));
    assert_eq!(def_work.mode, "work");
    assert_eq!(def_work.platform_profile, "balanced");
    assert_eq!(def_work.epp, "balance_power");
    assert!(def_work.boost);

    let def_gb = parse_active_definition("game-battery", parsed(""));
    assert_eq!(def_gb.mode, "game-battery");
    assert_eq!(def_gb.platform_profile, "power-saver");
    assert_eq!(def_gb.epp, "power");
    assert!(!def_gb.boost);

    let def_gb2 = parse_active_definition("gamebattery", parsed("   "));
    assert_eq!(def_gb2.mode, "game-battery");
    assert_eq!(def_gb2.platform_profile, "power-saver");
    assert_eq!(def_gb2.epp, "power");
    assert!(!def_gb2.boost);

    let def_game = parse_active_definition("game", parsed("invalid json"));
    assert_eq!(def_game.mode, "game");
    assert_eq!(def_game.platform_profile, "performance");
    assert_eq!(def_game.epp, "performance");
    assert!(def_game.boost);

    let def_game_plugged = parse_active_definition("game-plugged", parsed("{}"));
    assert_eq!(def_game_plugged.mode, "game");
    assert_eq!(def_game_plugged.platform_profile, "performance");
    assert_eq!(def_game_plugged.epp, "performance");
    assert!(def_game_plugged.boost);

    let def_unknown = parse_active_definition("random_mode", parsed("{}"));
    assert_eq!(def_unknown.mode, "random_mode");
    assert_eq!(def_unknown.platform_profile, "unknown");
    assert_eq!(def_unknown.epp, "unknown");
    assert!(!def_unknown.boost);
}

#[test]
fn a_definition_without_mode_falls_back() {
    let d = ActivePowerDefinition {
        mode: String::new(),
        platform_profile: "x".into(),
        epp: "y".into(),
        boost: true,
        description: String::new(),
    };
    let def = parse_active_definition("Game_Battery", Some(d));
    assert_eq!(def.mode, "game-battery");
    assert_eq!(
        def.description,
        "Power-saver platform profile with power EPP and CPU boost disabled to eliminate battery draw spikes"
    );
}

#[test]
fn hardware_specs_defaults() {
    let mut s = HardwareSpecs::default();
    s.gpu_spec = "RTX".into();
    s.bios_version = String::new();
    let s = s.with_defaults();
    assert_eq!(s.product_name, "HP Device");
    assert_eq!(s.cpu_spec, "Unknown CPU");
    assert_eq!(s.gpu_spec, "RTX");
    assert_eq!(s.ram_spec, "Unknown RAM");
    assert_eq!(s.ssd_spec, "Unknown SSD");
    assert_eq!(s.os_spec, "Linux");
    assert_eq!(s.bios_version, "");
}
