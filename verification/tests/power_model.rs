use omen_hub::power_model::{get_definition, EppPreference, PowerMode};

#[test]
fn test_power_mode_parsing() {
    assert_eq!("work".parse::<PowerMode>().unwrap(), PowerMode::Work);
    assert_eq!("WORK".parse::<PowerMode>().unwrap(), PowerMode::Work);
    assert_eq!(" Work ".parse::<PowerMode>().unwrap(), PowerMode::Work);

    assert_eq!("game-battery".parse::<PowerMode>().unwrap(), PowerMode::GameBattery);
    assert_eq!("game_battery".parse::<PowerMode>().unwrap(), PowerMode::GameBattery);
    assert_eq!("GAME-BATTERY".parse::<PowerMode>().unwrap(), PowerMode::GameBattery);

    assert_eq!("game".parse::<PowerMode>().unwrap(), PowerMode::Game);
    assert_eq!("GAME".parse::<PowerMode>().unwrap(), PowerMode::Game);
    assert_eq!("game-plugged".parse::<PowerMode>().unwrap(), PowerMode::Game);
    assert_eq!("game_plugged".parse::<PowerMode>().unwrap(), PowerMode::Game);
    assert_eq!("GAME-PLUGGED".parse::<PowerMode>().unwrap(), PowerMode::Game);

    assert!("invalid_mode".parse::<PowerMode>().is_err());
    assert!("performance".parse::<PowerMode>().is_err());
    assert!("".parse::<PowerMode>().is_err());
}

#[test]
fn test_epp_parsing() {
    assert_eq!("performance".parse::<EppPreference>().unwrap(), EppPreference::Performance);
    assert_eq!(
        "balance_performance".parse::<EppPreference>().unwrap(),
        EppPreference::BalancePerformance
    );
    assert_eq!(
        "balance-performance".parse::<EppPreference>().unwrap(),
        EppPreference::BalancePerformance
    );
    assert_eq!("balance_power".parse::<EppPreference>().unwrap(), EppPreference::BalancePower);
    assert_eq!("balance-power".parse::<EppPreference>().unwrap(), EppPreference::BalancePower);
    assert_eq!("power".parse::<EppPreference>().unwrap(), EppPreference::Power);

    assert!("invalid_epp".parse::<EppPreference>().is_err());
    assert!("max".parse::<EppPreference>().is_err());
}

#[test]
fn test_static_definitions() {
    let work = PowerMode::Work.definition();
    assert_eq!(work.mode, PowerMode::Work);
    assert_eq!(work.platform_profile, "balanced");
    assert_eq!(work.epp, EppPreference::BalancePower);
    assert!(work.boost);

    let game_battery = PowerMode::GameBattery.definition();
    assert_eq!(game_battery.mode, PowerMode::GameBattery);
    assert_eq!(game_battery.platform_profile, "power-saver");
    assert_eq!(game_battery.epp, EppPreference::Power);
    assert!(!game_battery.boost);

    let game = PowerMode::Game.definition();
    assert_eq!(game.mode, PowerMode::Game);
    assert_eq!(game.platform_profile, "performance");
    assert_eq!(game.epp, EppPreference::Performance);
    assert!(game.boost);
}

#[test]
fn mode_names_parse_back_to_their_mode() {
    for m in PowerMode::all() {
        assert_eq!(PowerMode::parse(m.as_str()).unwrap(), m);
    }
    for e in EppPreference::all() {
        assert_eq!(EppPreference::parse(e.as_str()).unwrap(), e);
    }
}

#[test]
fn parse_errors_name_the_input() {
    let e = PowerMode::parse(" turbo ").unwrap_err();
    assert_eq!(e.message(), "Invalid power mode ' turbo '. Valid modes: work, game-battery, game");
    assert_eq!(e.0, " turbo ");
}

#[test]
fn get_definition_matches_mode_definition() {
    for m in PowerMode::all() {
        assert_eq!(get_definition(m), m.definition());
    }
    assert_eq!(
        get_definition(PowerMode::GameBattery).description,
        "Power-saver platform profile with power EPP and CPU boost disabled to eliminate battery draw spikes"
    );
}
