use omen_hub::cli::{
    fan_auto_reply_message, fan_info_table, fan_manual_reply_message, fan_status_table,
    format_power_status_table, mode_reply_message, normalize_cli_power_mode, pwm_enable_description,
    validate_mux_mode, FanInfoReport, FanRpmReport, FanStatusReport,
};
use omen_hub::cli::{escape_pointer_token, fan_info_output, fan_status_output, power_info_output};

#[test]
fn test_normalize_cli_power_mode_valid() {
    assert_eq!(normalize_cli_power_mode("work").unwrap(), "work");
    assert_eq!(normalize_cli_power_mode("Work").unwrap(), "work");
    assert_eq!(normalize_cli_power_mode("WORK").unwrap(), "work");
    assert_eq!(normalize_cli_power_mode(" work ").unwrap(), "work");

    assert_eq!(normalize_cli_power_mode("game-battery").unwrap(), "game-battery");
    assert_eq!(normalize_cli_power_mode("Game-Battery").unwrap(), "game-battery");
    assert_eq!(normalize_cli_power_mode("game_battery").unwrap(), "game-battery");
    assert_eq!(normalize_cli_power_mode("gamebattery").unwrap(), "game-battery");

    assert_eq!(normalize_cli_power_mode("game").unwrap(), "game");
    assert_eq!(normalize_cli_power_mode("Game").unwrap(), "game");
    assert_eq!(normalize_cli_power_mode("GAME").unwrap(), "game");
    assert_eq!(normalize_cli_power_mode(" game ").unwrap(), "game");
    assert_eq!(normalize_cli_power_mode("game-plugged").unwrap(), "game");
    assert_eq!(normalize_cli_power_mode("gameplugged").unwrap(), "game");
}

#[test]
fn test_normalize_cli_power_mode_invalid() {
    assert!(normalize_cli_power_mode("performance").is_err());
    assert!(normalize_cli_power_mode("power-saver").is_err());
    assert!(normalize_cli_power_mode("overclock").is_err());
    assert!(normalize_cli_power_mode("invalid_mode").is_err());
    assert!(normalize_cli_power_mode("").is_err());

    let err = normalize_cli_power_mode("turbo").unwrap_err();
    assert!(err.contains("Invalid power mode 'turbo'"));
    assert!(err.contains("Valid modes: work, game-battery, game"));
}

#[test]
fn test_format_power_status_table() {
    let def_work =
        r#"{"mode":"work","platform_profile":"balanced","epp":"balance_power","boost":true}"#;
    let table_work = format_power_status_table("work", def_work);
    let output = table_work.to_string();
    assert!(output.contains("Authoritative Mode"));
    assert!(output.contains("work"));
    assert!(output.contains("balanced"));
    assert!(output.contains("balance_power"));
    assert!(output.contains("ON"));

    let def_game_battery = r#"{"mode":"game-battery","platform_profile":"power-saver","epp":"power","boost":false}"#;
    let table_gb = format_power_status_table("game-battery", def_game_battery);
    let output_gb = table_gb.to_string();
    assert!(output_gb.contains("game-battery"));
    assert!(output_gb.contains("power-saver"));
    assert!(output_gb.contains("power"));
    assert!(output_gb.contains("OFF"));

    let def_game =
        r#"{"mode":"game","platform_profile":"performance","epp":"performance","boost":true}"#;
    let table_game = format_power_status_table("game", def_game);
    let output_game = table_game.to_string();
    assert!(output_game.contains("game"));
    assert!(output_game.contains("performance"));
    assert!(output_game.contains("ON"));
}

fn rows(t: &comfy_table::Table) -> Vec<Vec<String>> {
    t.row_iter().map(|r| r.cell_iter().map(|c| c.content()).collect()).collect()
}

#[test]
fn status_table_falls_back_to_static_definitions() {
    let t = format_power_status_table("Game-Battery", "not json");
    assert_eq!(
        rows(&t),
        vec![
            vec!["Authoritative Mode".to_string(), "Game-Battery".to_string()],
            vec!["ACPI Platform Profile".to_string(), "power-saver".to_string()],
            vec!["CPU Energy Performance Preference (EPP)".to_string(), "power".to_string()],
            vec!["CPU Core Performance Boost".to_string(), "OFF".to_string()],
        ]
    );
    let t = format_power_status_table("turbo", "{}");
    assert_eq!(rows(&t)[1][1], "unknown");
    assert_eq!(rows(&t)[3][1], "unknown");
    let t = format_power_status_table("game-plugged", "[]");
    assert_eq!(rows(&t)[2][1], "performance");
}

#[test]
fn status_table_reads_the_definition_object() {
    let t = format_power_status_table("work", r#"{"epp":"power","boost":"yes"}"#);
    assert_eq!(
        rows(&t),
        vec![
            vec!["Authoritative Mode".to_string(), "work".to_string()],
            vec!["ACPI Platform Profile".to_string(), "unknown".to_string()],
            vec!["CPU Energy Performance Preference (EPP)".to_string(), "power".to_string()],
            vec!["CPU Core Performance Boost".to_string(), "unknown".to_string()],
        ]
    );
}

#[test]
fn mux_modes_are_validated() {
    assert_eq!(validate_mux_mode("Hybrid").as_deref(), Some("hybrid"));
    assert_eq!(validate_mux_mode("DISCRETE").as_deref(), Some("discrete"));
    assert_eq!(validate_mux_mode("advanced").as_deref(), Some("advanced"));
    assert_eq!(validate_mux_mode("integrated"), None);
}

#[test]
fn fan_status_rows_follow_the_reply() {
    let report = FanStatusReport {
        mode: Some("manual".to_string()),
        pwm_enable: Some(1),
        percentage: Some(40),
        pwm_duty: Some(102),
        fans: Some(vec![
            FanRpmReport { id: Some(1), current_rpm: Some(2400), max_rpm: Some(6000) },
            FanRpmReport { id: None, current_rpm: None, max_rpm: None },
        ]),
        thermal_protection_active: Some(false),
    };
    let t = fan_status_table(&report);
    assert_eq!(
        rows(&t),
        vec![
            vec!["Fan Mode".to_string(), "manual".to_string()],
            vec!["PWM Mode (pwm1_enable)".to_string(), "1 (Manual PWM Control)".to_string()],
            vec!["Effective Speed".to_string(), "40%".to_string()],
            vec!["Raw PWM Duty (pwm1)".to_string(), "102/255".to_string()],
            vec!["Fan 1 RPM".to_string(), "2400 RPM (Max: 6000 RPM)".to_string()],
            vec!["Fan 0 RPM".to_string(), "0 RPM (Max: 0 RPM)".to_string()],
            vec!["Thermal Protection Active".to_string(), "No".to_string()],
        ]
    );
    assert_eq!(pwm_enable_description(7), "Unknown");
    assert_eq!(pwm_enable_description(2), "2 (Auto / BIOS Hardware Thermal Table)");
}

#[test]
fn fan_info_rows_follow_the_reply() {
    let fans = Some(vec![FanInfoReport {
        fan_id: "2".to_string(),
        current: Some(2450),
        target: None,
        max: Some(6000),
    }]);
    let t = fan_info_table(&Some("auto".to_string()), &fans);
    assert_eq!(
        rows(&t),
        vec![
            vec!["Global Mode".to_string(), "auto".to_string()],
            vec!["Fan 2".to_string(), "Current RPM: 2450 | Target: 0 | Max: 6000".to_string()],
        ]
    );
}

#[test]
fn reply_messages() {
    assert_eq!(mode_reply_message("game", "OK").unwrap(), "Power mode successfully set to 'game'");
    assert_eq!(
        mode_reply_message("game", "FAIL: x").unwrap_err(),
        "Failed to set power mode to 'game': FAIL: x"
    );
    assert!(fan_auto_reply_message("OK").is_ok());
    assert_eq!(fan_auto_reply_message("ERR: y").unwrap_err(), "Failed to set fan mode to Auto: ERR: y");
    assert_eq!(fan_manual_reply_message(55, "OK").unwrap(), "Fan speed successfully set to 55% manual.");
    assert_eq!(fan_manual_reply_message(55, "no").unwrap_err(), "Failed to set fan speed: no");
}

fn pair(a: &str, b: &str) -> Vec<String> {
    vec![a.to_string(), b.to_string()]
}

#[test]
fn fan_status_output_reads_the_json_reply() {
    let reply = r#"{"mode":"auto","pwm_enable":2,"percentage":55,"pwm_duty":140,
        "fans":[{"id":1,"current_rpm":2300,"max_rpm":5800},{"id":"x","current_rpm":-3}],
        "thermal_protection_active":true}"#;
    let t = fan_status_output(reply).unwrap();
    assert_eq!(
        rows(&t),
        vec![
            pair("Fan Mode", "auto"),
            pair("PWM Mode (pwm1_enable)", "2 (Auto / BIOS Hardware Thermal Table)"),
            pair("Effective Speed", "55%"),
            pair("Raw PWM Duty (pwm1)", "140/255"),
            pair("Fan 1 RPM", "2300 RPM (Max: 5800 RPM)"),
            pair("Fan 0 RPM", "0 RPM (Max: 0 RPM)"),
            pair("Thermal Protection Active", "YES (Emergency Overdrive)"),
        ]
    );
    let t = fan_status_output(r#"{"mode":3,"fans":{}}"#).unwrap();
    assert!(rows(&t).is_empty());
    let t = fan_status_output("[1,2]").unwrap();
    assert!(rows(&t).is_empty());
}

#[test]
fn fan_status_output_hands_back_a_reply_that_is_not_json() {
    assert_eq!(fan_status_output("Error: daemon busy").unwrap_err(), "Error: daemon busy");
    assert_eq!(fan_status_output("").unwrap_err(), "");
}

#[test]
fn fan_info_output_reads_the_fans_object_in_key_order() {
    let reply = r#"{"mode":"manual","fans":{"2":{"current":2450,"max":6000},
        "1":{"current":2100,"target":3000,"max":5800},"a/b~c":{}}}"#;
    let t = fan_info_output(reply).unwrap();
    assert_eq!(
        rows(&t),
        vec![
            pair("Global Mode", "manual"),
            pair("Fan 1", "Current RPM: 2100 | Target: 3000 | Max: 5800"),
            pair("Fan 2", "Current RPM: 2450 | Target: 0 | Max: 6000"),
            pair("Fan a/b~c", "Current RPM: 0 | Target: 0 | Max: 0"),
        ]
    );
    let t = fan_info_output(r#"{"fans":[1]}"#).unwrap();
    assert!(rows(&t).is_empty());
    assert_eq!(fan_info_output("no fans").unwrap_err(), "no fans");
}

#[test]
fn pointer_tokens_escape_tilde_and_slash() {
    assert_eq!(escape_pointer_token("a/b~c"), "a~1b~0c");
    assert_eq!(escape_pointer_token("fan1"), "fan1");
    assert_eq!(escape_pointer_token(""), "");
}

#[test]
fn power_info_output_lists_the_object_entries() {
    let t = power_info_output(r#"{"mode":"game","boost":true,"epp":"performance","level":3}"#)
        .unwrap();
    assert_eq!(
        rows(&t),
        vec![
            pair("boost", "true"),
            pair("epp", "\"performance\""),
            pair("level", "3"),
            pair("mode", "\"game\""),
        ]
    );
    let t = power_info_output("[1]").unwrap();
    assert!(rows(&t).is_empty());
    assert_eq!(power_info_output("Error").unwrap_err(), "Error");
}
