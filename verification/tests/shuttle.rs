use voidlogue::engine::shuttle::{
    ShuttleState, ASTRAY_ENDING, CRUSHED_ENDING, DOCKED, DRIFT_ENDING, OVERSHOOT_ENDING,
};
use voidlogue::engine::state::GameState;
use voidlogue::entity::furniture::main_terminal::{MainTerminalCommand, ParseError};
use voidlogue::world::room::{Direction, PassageType, RoomIdentifier};

fn fuelled(state: &mut GameState) {
    assert_eq!(state.enter_shuttle_command("07::01::01"), Ok("Switched to fuel tank B.".to_string()));
    assert_eq!(state.enter_shuttle_command("07::00::01"), Ok("Fuel pump activated.".to_string()));
    assert_eq!(state.enter_shuttle_command("01::00::01"), Ok("Main engine started.".to_string()));
}

#[test]
fn docking_on_the_approach_vector_wins() {
    let mut state = GameState::new(RoomIdentifier::Bridge);
    fuelled(&mut state);
    assert_eq!(
        state.enter_shuttle_command("02::02::00::345"),
        Ok("Maneuver X vector set to 345.".to_string())
    );
    assert_eq!(
        state.enter_shuttle_command("02::02::01::5"),
        Ok("Maneuver Y vector set to 5.".to_string())
    );
    assert_eq!(
        state.enter_shuttle_command("02::05::3"),
        Ok("Maneuver thrust level set to 3.".to_string())
    );
    assert_eq!(
        state.world.get_adjacent_room(&RoomIdentifier::AirlockA, Direction::North),
        None
    );
    assert_eq!(state.enter_shuttle_command("02::04::00"), Ok(DOCKED.to_string()));
    assert!(!state.lost);
    assert_eq!(
        state.world.get_adjacent_room(&RoomIdentifier::AirlockA, Direction::North),
        Some((RoomIdentifier::StationAirlock, &PassageType::Free))
    );
}

#[test]
fn docking_twice_adds_one_passage() {
    let mut state = GameState::new(RoomIdentifier::Bridge);
    fuelled(&mut state);
    state.enter_shuttle_command("02::02::00::344").unwrap();
    state.enter_shuttle_command("02::02::01::351").unwrap();
    state.enter_shuttle_command("02::05::3").unwrap();
    let before = state.world.rooms[state.world.room_position(&RoomIdentifier::AirlockA).unwrap()]
        .connected_rooms
        .clone();
    assert_eq!(state.enter_shuttle_command("02::04::00"), Ok(DOCKED.to_string()));
    assert_eq!(state.enter_shuttle_command("02::04::00"), Ok(DOCKED.to_string()));
    let after = &state.world.rooms[state.world.room_position(&RoomIdentifier::AirlockA).unwrap()]
        .connected_rooms;
    let mut expected = before;
    expected.push((Direction::North, PassageType::Free, RoomIdentifier::StationAirlock));
    assert_eq!(after, &expected);
    assert_eq!(
        DOCKED,
        "You have successfully maneuvered the shuttle for docking. Congratulations, you've docked at the station!"
    );
}

#[test]
fn docking_out_of_the_cone_loses() {
    let mut state = GameState::new(RoomIdentifier::Bridge);
    fuelled(&mut state);
    state.enter_shuttle_command("02::02::00::10").unwrap();
    state.enter_shuttle_command("02::02::01::270").unwrap();
    state.enter_shuttle_command("02::05::3").unwrap();
    assert_eq!(state.enter_shuttle_command("02::04::00"), Err(ASTRAY_ENDING.to_string()));
    assert!(state.lost);
    assert_eq!(
        state.world.get_adjacent_room(&RoomIdentifier::AirlockA, Direction::North),
        None
    );
}

#[test]
fn docking_into_the_station_loses() {
    let mut state = GameState::new(RoomIdentifier::Bridge);
    fuelled(&mut state);
    state.enter_shuttle_command("02::02::00::200").unwrap();
    state.enter_shuttle_command("02::02::01::300").unwrap();
    state.enter_shuttle_command("02::05::3").unwrap();
    assert_eq!(state.enter_shuttle_command("02::04::00"), Err(CRUSHED_ENDING.to_string()));
    assert!(state.lost);
}

#[test]
fn main_thrust_is_fatal_at_low_power() {
    let mut state = GameState::new(RoomIdentifier::Bridge);
    fuelled(&mut state);
    assert_eq!(
        state.enter_shuttle_command("01::05::5"),
        Ok("Main engine power set to 5.".to_string())
    );
    assert_eq!(state.enter_shuttle_command("01::04::00"), Err(DRIFT_ENDING.to_string()));
    assert!(state.lost);
}

#[test]
fn main_thrust_is_fatal_at_high_power() {
    let mut shuttle = ShuttleState::new();
    shuttle.switch_to_fuel_tank_b().unwrap();
    shuttle.activate_fuel_pump().unwrap();
    shuttle.activate_main_engine().unwrap();
    shuttle.set_main_thrust_level(11).unwrap();
    assert_eq!(shuttle.activate_main_thrust(), Err(OVERSHOOT_ENDING.to_string()));
    shuttle.set_main_thrust_level(10).unwrap();
    assert_eq!(shuttle.activate_main_thrust(), Err(DRIFT_ENDING.to_string()));
}

#[test]
fn main_thrust_needs_engine_and_power() {
    let mut shuttle = ShuttleState::new();
    assert_eq!(
        shuttle.activate_main_thrust(),
        Err("Cannot activate thrust. Ensure main engine is on and power is set.".to_string())
    );
}

#[test]
fn unknown_code_is_a_parse_error() {
    assert_eq!(MainTerminalCommand::from_string("99::99::99"), Err(ParseError::InvalidCommand));
    let mut state = GameState::new(RoomIdentifier::Bridge);
    assert_eq!(state.enter_shuttle_command("99::99::99"), Err("Invalid command".to_string()));
    assert!(!state.lost);
    assert_eq!(state.shuttle_state, ShuttleState::new());
}

#[test]
fn coded_numbers_are_read_as_decimal() {
    assert_eq!(
        MainTerminalCommand::from_string("01::05::42"),
        Ok(MainTerminalCommand::SetMainThrustLevel(42))
    );
    assert_eq!(
        MainTerminalCommand::from_string("01::05::+7"),
        Ok(MainTerminalCommand::SetMainThrustLevel(7))
    );
    assert_eq!(
        MainTerminalCommand::from_string("01::05::007"),
        Ok(MainTerminalCommand::SetMainThrustLevel(7))
    );
    assert_eq!(
        MainTerminalCommand::from_string("01::05::255"),
        Ok(MainTerminalCommand::SetMainThrustLevel(255))
    );
    assert_eq!(MainTerminalCommand::from_string("01::05::256"), Err(ParseError::InvalidPowerLevel));
    assert_eq!(MainTerminalCommand::from_string("01::05::-1"), Err(ParseError::InvalidPowerLevel));
    assert_eq!(MainTerminalCommand::from_string("01::05::"), Err(ParseError::InvalidPowerLevel));
    assert_eq!(MainTerminalCommand::from_string("01::05::+"), Err(ParseError::InvalidPowerLevel));
    assert_eq!(MainTerminalCommand::from_string("01::05::4x"), Err(ParseError::InvalidPowerLevel));
    assert_eq!(
        MainTerminalCommand::from_string("02::02::00::-7"),
        Ok(MainTerminalCommand::SetManeurXVector(-7))
    );
    assert_eq!(
        MainTerminalCommand::from_string("02::02::00::-0"),
        Ok(MainTerminalCommand::SetManeurXVector(0))
    );
    assert_eq!(
        MainTerminalCommand::from_string("02::02::01::32767"),
        Ok(MainTerminalCommand::SetManeurYVector(32767))
    );
    assert_eq!(
        MainTerminalCommand::from_string("02::02::00::-32768"),
        Ok(MainTerminalCommand::SetManeurXVector(-32768))
    );
    assert_eq!(MainTerminalCommand::from_string("02::02::01::32768"), Err(ParseError::InvalidYVector));
    assert_eq!(MainTerminalCommand::from_string("02::02::00::"), Err(ParseError::InvalidXVector));
    assert_eq!(
        MainTerminalCommand::from_string("02::05::9"),
        Ok(MainTerminalCommand::SetManeuverThrustLevel(9))
    );
}

#[test]
fn std_reads_the_same_numbers() {
    let samples = [
        "42", "+7", "007", "255", "256", "-1", "", "+", "-", "4x", " 4", "4 ", "-0", "+0", "--1",
        "+-1", "32767", "32768", "-32768", "-32769", "100000", "100001", "-100001",
        "99999999999999999999", "-99999999999999999999", "00000000000000000000009", "٣", "1_0",
        "0x10", "1e2",
    ];
    for text in samples {
        let code = format!("01::05::{}", text);
        let expected = text.parse::<u8>().ok();
        let got = match MainTerminalCommand::from_string(&code) {
            Ok(MainTerminalCommand::SetMainThrustLevel(v)) => Some(v),
            _ => None,
        };
        assert_eq!(got, expected);
        let code = format!("02::02::00::{}", text);
        let expected = text.parse::<i16>().ok();
        let got = match MainTerminalCommand::from_string(&code) {
            Ok(MainTerminalCommand::SetManeurXVector(v)) => Some(v),
            _ => None,
        };
        assert_eq!(got, expected);
    }
}
