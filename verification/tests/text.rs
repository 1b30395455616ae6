use voidlogue::engine::shuttle::{FuelTank, ShuttleState};
use voidlogue::entity::furniture::main_terminal::{MainTerminal, MainTerminalCommand, ParseError};
use voidlogue::utils::{
    any_of, chars_of, join, picked_or, render_decimal, starts_with, str_equal,
};

fn s(text: &str) -> String {
    text.to_string()
}

#[test]
fn numbers_are_written_in_decimal() {
    assert_eq!(render_decimal(0), "0");
    assert_eq!(render_decimal(7), "7");
    assert_eq!(render_decimal(10), "10");
    assert_eq!(render_decimal(360), "360");
    assert_eq!(render_decimal(-5), "-5");
    assert_eq!(render_decimal(-32768), "-32768");
    assert_eq!(render_decimal(i32::MAX), "2147483647");
    assert_eq!(render_decimal(i32::MIN), "-2147483648");
}

#[test]
fn texts_are_compared_and_joined() {
    assert!(str_equal("abc", "abc"));
    assert!(!str_equal("abc", "abd"));
    assert!(!str_equal("abc", "ab"));
    assert!(str_equal("", ""));
    assert_eq!(chars_of("häl"), vec!['h', 'ä', 'l']);
    assert!(starts_with(&chars_of("01::05::9"), "01::05::"));
    assert!(starts_with(&chars_of("01::05::"), "01::05::"));
    assert!(!starts_with(&chars_of("01::05:"), "01::05::"));
    assert!(!starts_with(&chars_of("02::05::9"), "01::05::"));
    assert!(starts_with(&chars_of("x"), ""));
    assert_eq!(join(&vec![], ", "), "");
    assert_eq!(join(&vec![s("a")], ", "), "a");
    assert_eq!(join(&vec![s("a"), s("b"), s("c")], ", "), "a, b, c");
}

#[test]
fn a_pick_is_one_of_the_candidates() {
    let candidates = vec![s("one"), s("two"), s("three")];
    let mut seen = [false; 3];
    for _ in 0..200 {
        let text = any_of(&candidates, "none");
        let at = candidates.iter().position(|c| *c == text).unwrap();
        seen[at] = true;
    }
    assert!(seen.iter().all(|s| *s));
    assert_eq!(any_of(&vec![], "none"), "none");
    assert_eq!(picked_or(Some(&s("picked")), "none"), "picked");
    assert_eq!(picked_or(None, "none"), "none");
}

#[test]
fn the_shuttle_reports_its_state() {
    let mut shuttle = ShuttleState::new();
    assert_eq!(shuttle.main_engine_status(), Ok(s("Main engine is off. Power level: 0.")));
    assert_eq!(
        shuttle.maneuver_engine_status(),
        Ok(s("Maneuver engines are off. X vector: 0. Y vector: 0. Power level: 0."))
    );
    assert_eq!(shuttle.fuel_system_status(), Ok(s("Fuel tank: A. Fuel pump is off.")));
    shuttle.main_engine_on = true;
    shuttle.main_engine_power = 63;
    shuttle.maneuver_vector = (-5, 360);
    shuttle.maneuver_power = 7;
    shuttle.fuel_tank = FuelTank::B;
    shuttle.fuel_pump_on = true;
    assert_eq!(shuttle.main_engine_status(), Ok(s("Main engine is on. Power level: 63.")));
    assert_eq!(
        shuttle.maneuver_engine_status(),
        Ok(s("Maneuver engines are on. X vector: -5. Y vector: 360. Power level: 7."))
    );
    assert_eq!(shuttle.fuel_system_status(), Ok(s("Fuel tank: B. Fuel pump is on.")));
}

#[test]
fn the_shuttle_checks_its_settings() {
    let mut shuttle = ShuttleState::new();
    assert_eq!(shuttle.set_main_thrust_level(64), Err(s("Invalid thrust level. Must be between 0 and 63.")));
    assert_eq!(shuttle.set_main_thrust_level(63), Ok(s("Main engine power set to 63.")));
    assert_eq!(shuttle.set_main_thrust_level(0), Ok(s("Main engine power set to 0.")));
    assert_eq!(shuttle.set_maneuver_vector_x(-1), Err(s("Invalid X vector. Must be between 0 and 360.")));
    assert_eq!(shuttle.set_maneuver_vector_x(361), Err(s("Invalid X vector. Must be between 0 and 360.")));
    assert_eq!(shuttle.set_maneuver_vector_x(360), Ok(s("Maneuver X vector set to 360.")));
    assert_eq!(shuttle.set_maneuver_vector_y(361), Err(s("Invalid Y vector. Must be between 0 and 360.")));
    assert_eq!(shuttle.set_maneuver_vector_y(0), Ok(s("Maneuver Y vector set to 0.")));
    assert_eq!(
        shuttle.set_maneuver_thrust_level(8),
        Err(s("Invalid thrust level for maneuver engines. Must be between 0 and 7."))
    );
    assert_eq!(shuttle.set_maneuver_thrust_level(7), Ok(s("Maneuver thrust level set to 7.")));
    assert_eq!(shuttle.maneuver_vector, (360, 0));
    assert_eq!(shuttle.main_engine_power, 0);
    assert_eq!(shuttle.maneuver_power, 7);
}

#[test]
fn the_engine_needs_fuel() {
    let mut shuttle = ShuttleState::new();
    assert_eq!(shuttle.activate_main_engine(), Err(s("Main engine start failure: no fuel.")));
    assert_eq!(shuttle.deactivate_main_engine(), Err(s("Main engine is already off.")));
    assert_eq!(shuttle.activate_maneuver_engines(), Err(s("Maneuver engine start failure: No fuel.")));
    assert_eq!(shuttle.activate_fuel_pump(), Ok(s("Fuel pump activated.")));
    assert_eq!(shuttle.activate_main_engine(), Err(s("Main engine start failure: no fuel.")));
    assert_eq!(shuttle.switch_to_fuel_tank_b(), Ok(s("Switched to fuel tank B.")));
    assert_eq!(shuttle.activate_main_engine(), Ok(s("Main engine started.")));
    assert!(shuttle.main_engine_on);
    assert_eq!(shuttle.deactivate_main_thrust(), Ok(s("Main thrust deactivated.")));
    assert_eq!(shuttle.deactivate_main_engine(), Ok(s("Main engine deactivated.")));
    assert!(!shuttle.main_engine_on);
    assert_eq!(shuttle.switch_to_fuel_tank_a(), Ok(s("Switched to fuel tank A.")));
    assert_eq!(shuttle.deactivate_fuel_pump(), Ok(s("Fuel pump deactivated.")));
    assert_eq!(shuttle, ShuttleState::new());
}

#[test]
fn the_docking_cone_has_sharp_edges() {
    let mut shuttle = ShuttleState::new();
    shuttle.fuel_tank = FuelTank::B;
    shuttle.fuel_pump_on = true;
    let cases = [
        ((340, 350), 1, true),
        ((350, 360), 5, true),
        ((345, 0), 3, true),
        ((345, 10), 3, true),
        ((339, 5), 3, false),
        ((351, 5), 3, false),
        ((345, 11), 3, false),
        ((345, 349), 3, false),
        ((345, 5), 0, false),
        ((345, 5), 6, false),
    ];
    for (vector, power, docks) in cases {
        shuttle.maneuver_vector = vector;
        shuttle.maneuver_power = power;
        assert_eq!(shuttle.is_correct_approach_for_docking(), docks);
        assert_eq!(shuttle.docks(MainTerminalCommand::ActivateManeuverEngines), docks);
        assert_eq!(shuttle.loses(MainTerminalCommand::ActivateManeuverEngines), !docks);
        assert_eq!(shuttle.activate_maneuver_engines().is_ok(), docks);
    }
    shuttle.maneuver_vector = (361, 5);
    assert_eq!(
        shuttle.activate_maneuver_engines(),
        Err(s("Invalid vector setting: Out of range. Must be between 0 and 360."))
    );
    assert!(!shuttle.loses(MainTerminalCommand::ActivateManeuverEngines));
    shuttle.maneuver_vector = (345, 5);
    shuttle.maneuver_power = 8;
    assert_eq!(shuttle.activate_maneuver_engines(), Err(s("Invalid power setting for maneuver engines.")));
    assert!(!shuttle.docks(MainTerminalCommand::MainEngineStatus));
    assert!(!shuttle.loses(MainTerminalCommand::MainEngineStatus));
}

#[test]
fn a_failed_approach_ends_one_of_two_ways() {
    let mut shuttle = ShuttleState::new();
    let astray = [(180, 300), (360, 300), (200, 239), (200, 321)];
    let crushed = [(181, 240), (359, 320), (200, 300)];
    for vector in astray {
        shuttle.maneuver_vector = vector;
        assert!(shuttle.check_failed_maneuvering().unwrap_err().starts_with("You carefully navigate"));
    }
    for vector in crushed {
        shuttle.maneuver_vector = vector;
        assert!(shuttle.check_failed_maneuvering().unwrap_err().starts_with("As if in slow motion"));
    }
}

#[test]
fn every_code_is_understood() {
    let table = [
        ("01::00::00", MainTerminalCommand::DeactiveteMainEngine),
        ("01::00::01", MainTerminalCommand::ActivateMainEngine),
        ("01::04::00", MainTerminalCommand::ActivateMainThrust),
        ("01::04::01", MainTerminalCommand::DeactiveteMainThrust),
        ("01::05::0", MainTerminalCommand::SetMainThrustLevel(0)),
        ("01::09::00", MainTerminalCommand::MainEngineStatus),
        ("02::02::00::344", MainTerminalCommand::SetManeurXVector(344)),
        ("02::02::01::351", MainTerminalCommand::SetManeurYVector(351)),
        ("02::04::00", MainTerminalCommand::ActivateManeuverEngines),
        ("02::05::3", MainTerminalCommand::SetManeuverThrustLevel(3)),
        ("02::09::00", MainTerminalCommand::ManeuverEngineStatus),
        ("07::00::00", MainTerminalCommand::DeactivateFuelPump),
        ("07::00::01", MainTerminalCommand::ActivateFuelPump),
        ("07::01::00", MainTerminalCommand::SwitchToFuelTankA),
        ("07::01::01", MainTerminalCommand::SwitchToFuelTankB),
        ("07::09::00", MainTerminalCommand::FuelSystemStatus),
    ];
    for (code, command) in table {
        assert_eq!(MainTerminalCommand::from_string(code), Ok(command));
    }
    for code in ["", "01", "01::00::0", "01::00::000", " 01::00::00", "07::09::00 ", "02::04::01", "02::02::02::5"] {
        assert_eq!(MainTerminalCommand::from_string(code), Err(ParseError::InvalidCommand));
    }
    assert_eq!(MainTerminalCommand::from_string("02::02::00::x"), Err(ParseError::InvalidXVector));
    assert_eq!(MainTerminalCommand::from_string("02::02::01::"), Err(ParseError::InvalidYVector));
    assert_eq!(MainTerminalCommand::from_string("02::05::300"), Err(ParseError::InvalidPowerLevel));
    assert_eq!(ParseError::InvalidCommand.message(), "Invalid command");
    assert_eq!(ParseError::InvalidPowerLevel.message(), "Invalid power level");
    assert_eq!(ParseError::InvalidXVector.message(), "Invalid X vector");
    assert_eq!(ParseError::InvalidYVector.message(), "Invalid Y vector");
}

#[test]
fn the_terminal_hands_codes_to_the_shuttle() {
    let mut shuttle = ShuttleState::new();
    assert_eq!(MainTerminal::enter_command(&mut shuttle, "07::00::01"), Ok(s("Fuel pump activated.")));
    assert!(shuttle.fuel_pump_on);
    assert_eq!(MainTerminal::enter_command(&mut shuttle, "01::05::99"), Err(s("Invalid thrust level. Must be between 0 and 63.")));
    assert_eq!(MainTerminal::enter_command(&mut shuttle, "01::05::999"), Err(s("Invalid power level")));
    assert_eq!(MainTerminal::enter_command(&mut shuttle, "bogus"), Err(s("Invalid command")));
    assert_eq!(shuttle.main_engine_power, 0);
    assert_eq!(
        shuttle.handle_command(MainTerminalCommand::ManeuverEngineStatus),
        Ok(s("Maneuver engines are off. X vector: 0. Y vector: 0. Power level: 0."))
    );
}
