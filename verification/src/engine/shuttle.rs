//! The shuttle's propulsion and fuel systems, driven by the commands of the
//! main terminal.

use crate::entity::furniture::main_terminal::MainTerminalCommand;
use crate::utils::{decimal, render_decimal};
use vstd::prelude::*;

verus! {

/// The ending told when the main thrust fires at low power.
pub const DRIFT_ENDING: &'static str = "You are mesmerized by the station becoming smaller and smaller as the shuttle slowly drifts further into the deep space, until it completely disappears. You've used up the rest of the fuel, and there's no way back. \n\t\t\t\n                You'll live for days, maybe weeks, while the life support systems will be slowly shutting off. Maybe there's hope that some ship will still pick you up, maybe not. But you aren't in a good spot for sure.\n                \n                You've navigated away from the station, and you are completely lost in space.";

/// The ending told when the main thrust fires at high power.
pub const OVERSHOOT_ENDING: &'static str = "You are thrown in the captains chair. Stars become smears, the Gs feel like an ogre's foot on your chest. You are getting farther and farther into deep space at an alarming rate. \n\t\t\t\n                Suddenly, the accelleration stops. You realize the fuel ran out. The lights blink once again and turn off.\n                \n                This is the end.";

/// The ending told when the maneuver engines steer away from the station.
pub const ASTRAY_ENDING: &'static str = "You carefully navigate the shuttle... away from the station. Oh no! You have no idea where the station went, as it's no longer visible in any of the view ports. Now you'll die from cold as the shuttle tumbles through the void, no habitable worlds or trade routes for lightyears around you.\n\t\t\t\t\n            You lost.";

/// The ending told when the maneuver engines steer into the station.
pub const CRUSHED_ENDING: &'static str = "As if in slow motion, the shuttle floats towards the station. Your hope that the approach vector is correct is quickly crushed - just as the shuttle got crushed against the station. \n            \n            You lost.";

/// What is told when the shuttle docks.
pub const DOCKED: &'static str = "You have successfully maneuvered the shuttle for docking. Congratulations, you've docked at the station!";

/// The two fuel tanks.
#[derive(Debug, PartialEq, Eq, Clone, Copy, Structural)]
pub enum FuelTank {
    A,
    B,
}

/// The state of the propulsion and fuel systems.
#[derive(Debug, PartialEq, Eq, Clone, Copy)]
pub struct ShuttleState {
    pub main_engine_on: bool,
    /// 0 to 63.
    pub main_engine_power: u8,
    /// The approach vector, x and y, each 0 to 360.
    pub maneuver_vector: (i16, i16),
    /// 0 to 7.
    pub maneuver_power: u8,
    pub fuel_tank: FuelTank,
    pub fuel_pump_on: bool,
}

/// What a command does to the shuttle.
pub enum Outcome {
    /// The command was carried out; the text says so.
    Done(Seq<char>),
    /// The shuttle has docked at the station.
    Docked(Seq<char>),
    /// The command was refused; the shuttle is as it was.
    Refused(Seq<char>),
    /// The shuttle is lost; the text tells the ending.
    Lost(Seq<char>),
}

impl Outcome {
    /// The text of the outcome.
    pub open spec fn text(self) -> Seq<char> {
        match self {
            Outcome::Done(text) => text,
            Outcome::Docked(text) => text,
            Outcome::Refused(text) => text,
            Outcome::Lost(text) => text,
        }
    }

    /// The outcome as success or failure: a command that was carried out
    /// succeeds, one that was refused or lost the shuttle fails.
    pub open spec fn as_result(self) -> Result<Seq<char>, Seq<char>> {
        match self {
            Outcome::Done(text) => Ok(text),
            Outcome::Docked(text) => Ok(text),
            Outcome::Refused(text) => Err(text),
            Outcome::Lost(text) => Err(text),
        }
    }
}

/// The characters of a command's answer.
pub open spec fn answer_text(answer: Result<String, String>) -> Result<Seq<char>, Seq<char>> {
    match answer {
        Ok(text) => Ok(text@),
        Err(text) => Err(text@),
    }
}

/// "on" or "off".
pub open spec fn on_off(on: bool) -> Seq<char> {
    if on {
        "on"@
    } else {
        "off"@
    }
}

fn on_off_text(on: bool) -> (text: &'static str)
    ensures
        text@ == on_off(on),
{
    if on {
        "on"
    } else {
        "off"
    }
}

impl ShuttleState {
    /// The shuttle at rest: engine off, no power set, tank A, pump off.
    pub open spec fn initial() -> ShuttleState {
        ShuttleState {
            main_engine_on: false,
            main_engine_power: 0,
            maneuver_vector: (0, 0),
            maneuver_power: 0,
            fuel_tank: FuelTank::A,
            fuel_pump_on: false,
        }
    }

    /// Whether fuel reaches the engines: tank B is the active one and the
    /// pump runs.
    pub open spec fn has_fuel(self) -> bool {
        self.fuel_tank == FuelTank::B && self.fuel_pump_on
    }

    /// Whether vector and power are those of a docking approach.
    pub open spec fn docking_approach(self) -> bool {
        &&& 340 <= self.maneuver_vector.0 <= 350
        &&& (350 <= self.maneuver_vector.1 <= 360 || 0 <= self.maneuver_vector.1 <= 10)
        &&& 1 <= self.maneuver_power <= 5
    }

    /// Whether a failed approach steers away from the station rather than
    /// into it.
    pub open spec fn steers_astray(self) -> bool {
        self.maneuver_vector.0 < 181 || self.maneuver_vector.0 > 359 || self.maneuver_vector.1
            < 240 || self.maneuver_vector.1 > 320
    }

    /// Whether the stored vector lies within 0 to 360 on both axes.
    pub open spec fn vector_in_range(self) -> bool {
        0 <= self.maneuver_vector.0 <= 360 && 0 <= self.maneuver_vector.1 <= 360
    }

    /// What starting the maneuver engines does.
    pub open spec fn maneuver_outcome(self) -> Outcome {
        if !self.has_fuel() {
            Outcome::Refused("Maneuver engine start failure: No fuel."@)
        } else if !self.vector_in_range() {
            Outcome::Refused("Invalid vector setting: Out of range. Must be between 0 and 360."@)
        } else if self.maneuver_power > 7 {
            Outcome::Refused("Invalid power setting for maneuver engines."@)
        } else if self.docking_approach() {
            Outcome::Docked(DOCKED@)
        } else if self.steers_astray() {
            Outcome::Lost(ASTRAY_ENDING@)
        } else {
            Outcome::Lost(CRUSHED_ENDING@)
        }
    }

    /// What switching the main thrust on does: with the engine on and power
    /// set it always loses the shuttle.
    pub open spec fn main_thrust_outcome(self) -> Outcome {
        if self.main_engine_on && self.main_engine_power > 0 {
            if self.main_engine_power <= 10 {
                Outcome::Lost(DRIFT_ENDING@)
            } else {
                Outcome::Lost(OVERSHOOT_ENDING@)
            }
        } else {
            Outcome::Refused("Cannot activate thrust. Ensure main engine is on and power is set."@)
        }
    }

    /// The report on the main engine.
    pub open spec fn main_engine_report(self) -> Seq<char> {
        "Main engine is "@ + on_off(self.main_engine_on) + ". Power level: "@ + decimal(
            self.main_engine_power as int,
        ) + "."@
    }

    /// The report on the maneuver engines.
    pub open spec fn maneuver_engine_report(self) -> Seq<char> {
        "Maneuver engines are "@ + on_off(self.maneuver_power > 0) + ". X vector: "@ + decimal(
            self.maneuver_vector.0 as int,
        ) + ". Y vector: "@ + decimal(self.maneuver_vector.1 as int) + ". Power level: "@
            + decimal(self.maneuver_power as int) + "."@
    }

    /// The report on the fuel system.
    pub open spec fn fuel_report(self) -> Seq<char> {
        "Fuel tank: "@ + (match self.fuel_tank {
            FuelTank::A => "A"@,
            FuelTank::B => "B"@,
        }) + ". Fuel pump is "@ + on_off(self.fuel_pump_on) + "."@
    }

    /// What a command does to the shuttle.
    pub open spec fn outcome(self, command: MainTerminalCommand) -> Outcome {
        match command {
            MainTerminalCommand::ActivateMainEngine => if self.has_fuel() {
                Outcome::Done("Main engine started."@)
            } else {
                Outcome::Refused("Main engine start failure: no fuel."@)
            },
            MainTerminalCommand::DeactiveteMainEngine => if self.main_engine_on {
                Outcome::Done("Main engine deactivated."@)
            } else {
                Outcome::Refused("Main engine is already off."@)
            },
            MainTerminalCommand::ActivateMainThrust => self.main_thrust_outcome(),
            MainTerminalCommand::DeactiveteMainThrust => Outcome::Done("Main thrust deactivated."@),
            MainTerminalCommand::SetMainThrustLevel(level) => if level > 63 {
                Outcome::Refused("Invalid thrust level. Must be between 0 and 63."@)
            } else {
                Outcome::Done("Main engine power set to "@ + decimal(level as int) + "."@)
            },
            MainTerminalCommand::MainEngineStatus => Outcome::Done(self.main_engine_report()),
            MainTerminalCommand::SetManeurXVector(x) => if x < 0 || x > 360 {
                Outcome::Refused("Invalid X vector. Must be between 0 and 360."@)
            } else {
                Outcome::Done("Maneuver X vector set to "@ + decimal(x as int) + "."@)
            },
            MainTerminalCommand::SetManeurYVector(y) => if y < 0 || y > 360 {
                Outcome::Refused("Invalid Y vector. Must be between 0 and 360."@)
            } else {
                Outcome::Done("Maneuver Y vector set to "@ + decimal(y as int) + "."@)
            },
            MainTerminalCommand::ActivateManeuverEngines => self.maneuver_outcome(),
            MainTerminalCommand::SetManeuverThrustLevel(level) => if level > 7 {
                Outcome::Refused(
                    "Invalid thrust level for maneuver engines. Must be between 0 and 7."@,
                )
            } else {
                Outcome::Done("Maneuver thrust level set to "@ + decimal(level as int) + "."@)
            },
            MainTerminalCommand::ManeuverEngineStatus => Outcome::Done(
                self.maneuver_engine_report(),
            ),
            MainTerminalCommand::SwitchToFuelTankA => Outcome::Done("Switched to fuel tank A."@),
            MainTerminalCommand::SwitchToFuelTankB => Outcome::Done("Switched to fuel tank B."@),
            MainTerminalCommand::ActivateFuelPump => Outcome::Done("Fuel pump activated."@),
            MainTerminalCommand::DeactivateFuelPump => Outcome::Done("Fuel pump deactivated."@),
            MainTerminalCommand::FuelSystemStatus => Outcome::Done(self.fuel_report()),
        }
    }

    /// The shuttle after a command. A command that is refused, reports a
    /// status or ends the flight leaves the state as it was.
    pub open spec fn after(self, command: MainTerminalCommand) -> ShuttleState {
        if !(self.outcome(command) is Done) {
            self
        } else {
            match command {
                MainTerminalCommand::ActivateMainEngine => ShuttleState {
                    main_engine_on: true,
                    ..self
                },
                MainTerminalCommand::DeactiveteMainEngine => ShuttleState {
                    main_engine_on: false,
                    ..self
                },
                MainTerminalCommand::SetMainThrustLevel(level) => ShuttleState {
                    main_engine_power: level,
                    ..self
                },
                MainTerminalCommand::SetManeurXVector(x) => ShuttleState {
                    maneuver_vector: (x, self.maneuver_vector.1),
                    ..self
                },
                MainTerminalCommand::SetManeurYVector(y) => ShuttleState {
                    maneuver_vector: (self.maneuver_vector.0, y),
                    ..self
                },
                MainTerminalCommand::SetManeuverThrustLevel(level) => ShuttleState {
                    maneuver_power: level,
                    ..self
                },
                MainTerminalCommand::SwitchToFuelTankA => ShuttleState {
                    fuel_tank: FuelTank::A,
                    ..self
                },
                MainTerminalCommand::SwitchToFuelTankB => ShuttleState {
                    fuel_tank: FuelTank::B,
                    ..self
                },
                MainTerminalCommand::ActivateFuelPump => ShuttleState {
                    fuel_pump_on: true,
                    ..self
                },
                MainTerminalCommand::DeactivateFuelPump => ShuttleState {
                    fuel_pump_on: false,
                    ..self
                },
                _ => self,
            }
        }
    }

    /// Whether the command would dock the shuttle.
    pub fn docks(&self, command: MainTerminalCommand) -> (yes: bool)
        ensures
            yes == (self.outcome(command) is Docked),
    {
        match command {
            MainTerminalCommand::ActivateManeuverEngines => self.fuel_tank == FuelTank::B
                && self.fuel_pump_on && self.maneuver_power <= 7
                && self.is_correct_approach_for_docking(),
            _ => false,
        }
    }

    /// Whether the command would lose the shuttle.
    pub fn loses(&self, command: MainTerminalCommand) -> (yes: bool)
        ensures
            yes == (self.outcome(command) is Lost),
    {
        match command {
            MainTerminalCommand::ActivateMainThrust => self.main_engine_on
                && self.main_engine_power > 0,
            MainTerminalCommand::ActivateManeuverEngines => self.fuel_tank == FuelTank::B
                && self.fuel_pump_on && 0 <= self.maneuver_vector.0
                && self.maneuver_vector.0 <= 360 && 0 <= self.maneuver_vector.1
                && self.maneuver_vector.1 <= 360 && self.maneuver_power <= 7
                && !self.is_correct_approach_for_docking(),
            _ => false,
        }
    }

    /// The shuttle at rest: engine off, no power set, tank A, pump off.
    pub fn new() -> (shuttle: Self)
        ensures
            shuttle == Self::initial(),
    {
        ShuttleState {
            main_engine_on: false,
            main_engine_power: 0,
            maneuver_vector: (0, 0),
            maneuver_power: 0,
            fuel_tank: FuelTank::A,
            fuel_pump_on: false,
        }
    }

    /// Carries out one command of the main terminal.
    pub fn handle_command(&mut self, command: MainTerminalCommand) -> (answer: Result<
        String,
        String,
    >)
        ensures
            answer_text(answer) == old(self).outcome(command).as_result(),
            *final(self) == old(self).after(command),
    {
        match command {
            MainTerminalCommand::ActivateMainEngine => self.activate_main_engine(),
            MainTerminalCommand::DeactiveteMainEngine => self.deactivate_main_engine(),
            MainTerminalCommand::ActivateMainThrust => self.activate_main_thrust(),
            MainTerminalCommand::DeactiveteMainThrust => self.deactivate_main_thrust(),
            MainTerminalCommand::SetMainThrustLevel(level) => self.set_main_thrust_level(level),
            MainTerminalCommand::MainEngineStatus => self.main_engine_status(),
            MainTerminalCommand::SetManeurXVector(x) => self.set_maneuver_vector_x(x),
            MainTerminalCommand::SetManeurYVector(y) => self.set_maneuver_vector_y(y),
            MainTerminalCommand::ActivateManeuverEngines => self.activate_maneuver_engines(),
            MainTerminalCommand::SetManeuverThrustLevel(level) => self.set_maneuver_thrust_level(
                level,
            ),
            MainTerminalCommand::ManeuverEngineStatus => self.maneuver_engine_status(),
            MainTerminalCommand::SwitchToFuelTankA => self.switch_to_fuel_tank_a(),
            MainTerminalCommand::SwitchToFuelTankB => self.switch_to_fuel_tank_b(),
            MainTerminalCommand::ActivateFuelPump => self.activate_fuel_pump(),
            MainTerminalCommand::DeactivateFuelPump => self.deactivate_fuel_pump(),
            MainTerminalCommand::FuelSystemStatus => self.fuel_system_status(),
        }
    }

    /// Starts the main engine if fuel reaches it.
    pub fn activate_main_engine(&mut self) -> (answer: Result<String, String>)
        ensures
            answer_text(answer) == old(self).outcome(
                MainTerminalCommand::ActivateMainEngine,
            ).as_result(),
            *final(self) == old(self).after(MainTerminalCommand::ActivateMainEngine),
    {
        if self.fuel_tank == FuelTank::B && self.fuel_pump_on {
            self.main_engine_on = true;
            Ok("Main engine started.".to_owned())
        } else {
            Err("Main engine start failure: no fuel.".to_owned())
        }
    }

    /// Stops the main engine if it runs.
    pub fn deactivate_main_engine(&mut self) -> (answer: Result<String, String>)
        ensures
            answer_text(answer) == old(self).outcome(
                MainTerminalCommand::DeactiveteMainEngine,
            ).as_result(),
            *final(self) == old(self).after(MainTerminalCommand::DeactiveteMainEngine),
    {
        if self.main_engine_on {
            self.main_engine_on = false;
            Ok("Main engine deactivated.".to_owned())
        } else {
            Err("Main engine is already off.".to_owned())
        }
    }

    /// Switches the main thrust on, which never ends well.
    pub fn activate_main_thrust(&mut self) -> (answer: Result<String, String>)
        ensures
            answer is Err,
            answer_text(answer) == old(self).main_thrust_outcome().as_result(),
            *final(self) == *old(self),
    {
        if self.main_engine_on && self.main_engine_power > 0 {
            if self.main_engine_power <= 10 {
                Err(DRIFT_ENDING.to_owned())
            } else {
                Err(OVERSHOOT_ENDING.to_owned())
            }
        } else {
            Err("Cannot activate thrust. Ensure main engine is on and power is set.".to_owned())
        }
    }

    /// Switches the main thrust off, which does nothing.
    pub fn deactivate_main_thrust(&mut self) -> (answer: Result<String, String>)
        ensures
            answer matches Ok(text) && text@ == "Main thrust deactivated."@,
            *final(self) == *old(self),
    {
        Ok("Main thrust deactivated.".to_owned())
    }

    /// Sets the power of the main engine, 0 to 63.
    pub fn set_main_thrust_level(&mut self, level: u8) -> (answer: Result<String, String>)
        ensures
            answer_text(answer) == old(self).outcome(
                MainTerminalCommand::SetMainThrustLevel(level),
            ).as_result(),
            *final(self) == old(self).after(MainTerminalCommand::SetMainThrustLevel(level)),
    {
        if level > 63 {
            Err("Invalid thrust level. Must be between 0 and 63.".to_owned())
        } else {
            self.main_engine_power = level;
            let mut text = "Main engine power set to ".to_owned();
            text.append(render_decimal(level as i32).as_str());
            text.append(".");
            Ok(text)
        }
    }

    /// Reports on the main engine.
    pub fn main_engine_status(&self) -> (answer: Result<String, String>)
        ensures
            answer matches Ok(text) && text@ == self.main_engine_report(),
    {
        let mut text = "Main engine is ".to_owned();
        text.append(on_off_text(self.main_engine_on));
        text.append(". Power level: ");
        text.append(render_decimal(self.main_engine_power as i32).as_str());
        text.append(".");
        Ok(text)
    }

    /// Sets the x component of the approach vector, 0 to 360.
    pub fn set_maneuver_vector_x(&mut self, x: i16) -> (answer: Result<String, String>)
        ensures
            answer_text(answer) == old(self).outcome(
                MainTerminalCommand::SetManeurXVector(x),
            ).as_result(),
            *final(self) == old(self).after(MainTerminalCommand::SetManeurXVector(x)),
    {
        if x < 0 || x > 360 {
            Err("Invalid X vector. Must be between 0 and 360.".to_owned())
        } else {
            self.maneuver_vector.0 = x;
            let mut text = "Maneuver X vector set to ".to_owned();
            text.append(render_decimal(x as i32).as_str());
            text.append(".");
            Ok(text)
        }
    }

    /// Sets the y component of the approach vector, 0 to 360.
    pub fn set_maneuver_vector_y(&mut self, y: i16) -> (answer: Result<String, String>)
        ensures
            answer_text(answer) == old(self).outcome(
                MainTerminalCommand::SetManeurYVector(y),
            ).as_result(),
            *final(self) == old(self).after(MainTerminalCommand::SetManeurYVector(y)),
    {
        if y < 0 || y > 360 {
            Err("Invalid Y vector. Must be between 0 and 360.".to_owned())
        } else {
            self.maneuver_vector.1 = y;
            let mut text = "Maneuver Y vector set to ".to_owned();
            text.append(render_decimal(y as i32).as_str());
            text.append(".");
            Ok(text)
        }
    }

    /// Sets the power of the maneuver engines, 0 to 7.
    pub fn set_maneuver_thrust_level(&mut self, level: u8) -> (answer: Result<String, String>)
        ensures
            answer_text(answer) == old(self).outcome(
                MainTerminalCommand::SetManeuverThrustLevel(level),
            ).as_result(),
            *final(self) == old(self).after(MainTerminalCommand::SetManeuverThrustLevel(level)),
    {
        if level > 7 {
            Err("Invalid thrust level for maneuver engines. Must be between 0 and 7.".to_owned())
        } else {
            self.maneuver_power = level;
            let mut text = "Maneuver thrust level set to ".to_owned();
            text.append(render_decimal(level as i32).as_str());
            text.append(".");
            Ok(text)
        }
    }

    /// Reports on the maneuver engines.
    pub fn maneuver_engine_status(&self) -> (answer: Result<String, String>)
        ensures
            answer matches Ok(text) && text@ == self.maneuver_engine_report(),
    {
        let mut text = "Maneuver engines are ".to_owned();
        text.append(on_off_text(self.maneuver_power > 0));
        text.append(". X vector: ");
        text.append(render_decimal(self.maneuver_vector.0 as i32).as_str());
        text.append(". Y vector: ");
        text.append(render_decimal(self.maneuver_vector.1 as i32).as_str());
        text.append(". Power level: ");
        text.append(render_decimal(self.maneuver_power as i32).as_str());
        text.append(".");
        Ok(text)
    }

    /// Makes tank A the active one.
    pub fn switch_to_fuel_tank_a(&mut self) -> (answer: Result<String, String>)
        ensures
            answer matches Ok(text) && text@ == "Switched to fuel tank A."@,
            *final(self) == (ShuttleState { fuel_tank: FuelTank::A, ..*old(self) }),
    {
        self.fuel_tank = FuelTank::A;
        Ok("Switched to fuel tank A.".to_owned())
    }

    /// Makes tank B the active one.
    pub fn switch_to_fuel_tank_b(&mut self) -> (answer: Result<String, String>)
        ensures
            answer matches Ok(text) && text@ == "Switched to fuel tank B."@,
            *final(self) == (ShuttleState { fuel_tank: FuelTank::B, ..*old(self) }),
    {
        self.fuel_tank = FuelTank::B;
        Ok("Switched to fuel tank B.".to_owned())
    }

    /// Switches the fuel pump on.
    pub fn activate_fuel_pump(&mut self) -> (answer: Result<String, String>)
        ensures
            answer matches Ok(text) && text@ == "Fuel pump activated."@,
            *final(self) == (ShuttleState { fuel_pump_on: true, ..*old(self) }),
    {
        self.fuel_pump_on = true;
        Ok("Fuel pump activated.".to_owned())
    }

    /// Switches the fuel pump off.
    pub fn deactivate_fuel_pump(&mut self) -> (answer: Result<String, String>)
        ensures
            answer matches Ok(text) && text@ == "Fuel pump deactivated."@,
            *final(self) == (ShuttleState { fuel_pump_on: false, ..*old(self) }),
    {
        self.fuel_pump_on = false;
        Ok("Fuel pump deactivated.".to_owned())
    }

    /// Reports on the fuel system.
    pub fn fuel_system_status(&self) -> (answer: Result<String, String>)
        ensures
            answer matches Ok(text) && text@ == self.fuel_report(),
    {
        let mut text = "Fuel tank: ".to_owned();
        text.append(
            match self.fuel_tank {
                FuelTank::A => "A",
                FuelTank::B => "B",
            },
        );
        text.append(". Fuel pump is ");
        text.append(on_off_text(self.fuel_pump_on));
        text.append(".");
        Ok(text)
    }

    /// Starts the maneuver engines: the docking attempt. The shuttle docks
    /// on a docking approach and is lost on any other that the engines
    /// accept.
    pub fn activate_maneuver_engines(&mut self) -> (answer: Result<String, String>)
        ensures
            answer_text(answer) == old(self).maneuver_outcome().as_result(),
            *final(self) == *old(self),
    {
        let x_vector = self.maneuver_vector.0;
        let y_vector = self.maneuver_vector.1;
        let power = self.maneuver_power;
        if self.fuel_tank != FuelTank::B || !self.fuel_pump_on {
            return Err("Maneuver engine start failure: No fuel.".to_owned());
        }
        if x_vector < 0 || x_vector > 360 || y_vector < 0 || y_vector > 360 {
            return Err(
                "Invalid vector setting: Out of range. Must be between 0 and 360.".to_owned(),
            );
        }
        if power > 7 {
            return Err("Invalid power setting for maneuver engines.".to_owned());
        }
        if self.is_correct_approach_for_docking() {
            Ok(DOCKED.to_owned())
        } else {
            self.check_failed_maneuvering()
        }
    }

    /// Whether vector and power are those of a docking approach.
    pub fn is_correct_approach_for_docking(&self) -> (yes: bool)
        ensures
            yes == self.docking_approach(),
    {
        (self.maneuver_vector.0 >= 340 && self.maneuver_vector.0 <= 350) && ((
        self.maneuver_vector.1 >= 350 && self.maneuver_vector.1 <= 360) || (self.maneuver_vector.1
            >= 0 && self.maneuver_vector.1 <= 10)) && self.maneuver_power >= 1
            && self.maneuver_power <= 5
    }

    /// Tells how a failed approach ends.
    pub fn check_failed_maneuvering(&self) -> (answer: Result<String, String>)
        ensures
            answer matches Err(text) && text@ == (if self.steers_astray() {
                ASTRAY_ENDING@
            } else {
                CRUSHED_ENDING@
            }),
    {
        if self.maneuver_vector.0 < 181 || self.maneuver_vector.0 > 359 || self.maneuver_vector.1
            < 240 || self.maneuver_vector.1 > 320 {
            Err(ASTRAY_ENDING.to_owned())
        } else {
            Err(CRUSHED_ENDING.to_owned())
        }
    }
}

} // verus!
