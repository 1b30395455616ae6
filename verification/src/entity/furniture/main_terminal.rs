//! The main terminal of the bridge and the coded commands it takes.

use crate::engine::shuttle::{answer_text, ShuttleState};
use crate::entity::{Entity, EntityId, EntityKind, EntityView};
use crate::utils::{chars_of, has_prefix, parse_decimal, parse_integer, str_equal, texts};
use vstd::prelude::*;

verus! {

/// The console through which the shuttle is flown.
pub struct MainTerminal {
    pub id: EntityId,
    pub name: String,
    pub aliases: Vec<String>,
    pub description: String,
    pub contains: Vec<EntityId>,
}

impl MainTerminal {
    pub fn new(
        id: EntityId,
        name: String,
        aliases: Vec<String>,
        description: String,
        contains: Vec<EntityId>,
    ) -> (made: Self)
        ensures
            made.id == id,
            made.name == name,
            made.aliases == aliases,
            made.description == description,
            made.contains == contains,
    {
        MainTerminal { id, name, aliases, description, contains }
    }

    /// Reads a coded command and hands it to the shuttle. A code that is
    /// not understood is answered with the parse error in words and leaves
    /// the shuttle as it was.
    pub fn enter_command(shuttle: &mut ShuttleState, command: &str) -> (answer: Result<
        String,
        String,
    >)
        ensures
            answer_text(answer) == (match parsed_command(command@) {
                Ok(parsed) => old(shuttle).outcome(parsed).as_result(),
                Err(error) => Err(error.message_text()),
            }),
            *final(shuttle) == (match parsed_command(command@) {
                Ok(parsed) => old(shuttle).after(parsed),
                Err(_) => *old(shuttle),
            }),
    {
        match MainTerminalCommand::from_string(command) {
            Ok(parsed) => shuttle.handle_command(parsed),
            Err(error) => Err(error.message().to_owned()),
        }
    }
}

impl Entity for MainTerminal {
    open spec fn model(&self) -> EntityView {
        EntityView {
            id: self.id,
            name: self.name@,
            aliases: texts(self.aliases@),
            description: self.description@,
            kind: EntityKind::MainTerminal,
            contents: self.contains@,
            text: Seq::empty(),
            eaten: false,
        }
    }

    fn get_id(&self) -> (id: EntityId) {
        self.id
    }

    fn name(&self) -> (name: &str) {
        self.name.as_str()
    }

    fn aliases(&self) -> (aliases: &Vec<String>) {
        &self.aliases
    }

    fn description(&self) -> (description: &str) {
        self.description.as_str()
    }
}

/// The commands that the main terminal understands.
#[derive(Debug, PartialEq, Eq, Clone, Copy, Structural)]
pub enum MainTerminalCommand {
    ActivateMainEngine,
    DeactiveteMainEngine,
    ActivateMainThrust,
    DeactiveteMainThrust,
    SetMainThrustLevel(u8),
    MainEngineStatus,
    SetManeurXVector(i16),
    SetManeurYVector(i16),
    ActivateManeuverEngines,
    SetManeuverThrustLevel(u8),
    ManeuverEngineStatus,
    SwitchToFuelTankA,
    SwitchToFuelTankB,
    ActivateFuelPump,
    DeactivateFuelPump,
    FuelSystemStatus,
}

/// Why a coded command was not understood.
#[derive(Debug, PartialEq, Eq, Clone, Copy, Structural)]
pub enum ParseError {
    /// The code is none that the terminal knows.
    InvalidCommand,
    /// The code sets a power level, and what follows is no number from 0 to
    /// 255.
    InvalidPowerLevel,
    /// The code sets the x vector, and what follows is no 16-bit number.
    InvalidXVector,
    /// The code sets the y vector, and what follows is no 16-bit number.
    InvalidYVector,
}

impl ParseError {
    /// The error in words.
    pub open spec fn message_text(self) -> Seq<char> {
        match self {
            ParseError::InvalidCommand => "Invalid command"@,
            ParseError::InvalidPowerLevel => "Invalid power level"@,
            ParseError::InvalidXVector => "Invalid X vector"@,
            ParseError::InvalidYVector => "Invalid Y vector"@,
        }
    }

    /// The error in words.
    pub fn message(&self) -> (text: &'static str)
        ensures
            text@ == self.message_text(),
    {
        match self {
            ParseError::InvalidCommand => "Invalid command",
            ParseError::InvalidPowerLevel => "Invalid power level",
            ParseError::InvalidXVector => "Invalid X vector",
            ParseError::InvalidYVector => "Invalid Y vector",
        }
    }
}

/// The number that follows a prefix of a code, as an unsigned byte.
pub open spec fn byte_after(code: Seq<char>, prefix: Seq<char>) -> Option<int> {
    parse_integer(code.skip(prefix.len() as int), false, 0, 255)
}

/// The number that follows a prefix of a code, as a signed 16-bit number.
pub open spec fn short_after(code: Seq<char>, prefix: Seq<char>) -> Option<int> {
    parse_integer(code.skip(prefix.len() as int), true, -32768, 32767)
}

/// What a coded command means. A code is three or four groups joined by
/// `::`: the system, the register, and the value.
pub open spec fn parsed_command(code: Seq<char>) -> Result<MainTerminalCommand, ParseError> {
    if code == "01::00::00"@ {
        Ok(MainTerminalCommand::DeactiveteMainEngine)
    } else if code == "01::00::01"@ {
        Ok(MainTerminalCommand::ActivateMainEngine)
    } else if code == "01::04::00"@ {
        Ok(MainTerminalCommand::ActivateMainThrust)
    } else if code == "01::04::01"@ {
        Ok(MainTerminalCommand::DeactiveteMainThrust)
    } else if has_prefix(code, "01::05::"@) {
        match byte_after(code, "01::05::"@) {
            Some(power) => Ok(MainTerminalCommand::SetMainThrustLevel(power as u8)),
            None => Err(ParseError::InvalidPowerLevel),
        }
    } else if code == "01::09::00"@ {
        Ok(MainTerminalCommand::MainEngineStatus)
    } else if has_prefix(code, "02::02::00::"@) {
        match short_after(code, "02::02::00::"@) {
            Some(x) => Ok(MainTerminalCommand::SetManeurXVector(x as i16)),
            None => Err(ParseError::InvalidXVector),
        }
    } else if has_prefix(code, "02::02::01::"@) {
        match short_after(code, "02::02::01::"@) {
            Some(y) => Ok(MainTerminalCommand::SetManeurYVector(y as i16)),
            None => Err(ParseError::InvalidYVector),
        }
    } else if code == "02::04::00"@ {
        Ok(MainTerminalCommand::ActivateManeuverEngines)
    } else if has_prefix(code, "02::05::"@) {
        match byte_after(code, "02::05::"@) {
            Some(power) => Ok(MainTerminalCommand::SetManeuverThrustLevel(power as u8)),
            None => Err(ParseError::InvalidPowerLevel),
        }
    } else if code == "02::09::00"@ {
        Ok(MainTerminalCommand::ManeuverEngineStatus)
    } else if code == "07::00::00"@ {
        Ok(MainTerminalCommand::DeactivateFuelPump)
    } else if code == "07::00::01"@ {
        Ok(MainTerminalCommand::ActivateFuelPump)
    } else if code == "07::01::00"@ {
        Ok(MainTerminalCommand::SwitchToFuelTankA)
    } else if code == "07::01::01"@ {
        Ok(MainTerminalCommand::SwitchToFuelTankB)
    } else if code == "07::09::00"@ {
        Ok(MainTerminalCommand::FuelSystemStatus)
    } else {
        Err(ParseError::InvalidCommand)
    }
}

/// The number that follows the prefix, if the characters begin with the
/// prefix: `None` where they do not, else what the number reads as.
fn number_after(chars: &Vec<char>, prefix: &str, signed: bool, min: i32, max: i32) -> (found:
    Option<Option<i32>>)
    requires
        -100000 <= min <= max <= 100000,
    ensures
        found is Some <==> has_prefix(chars@, prefix@),
        found matches Some(number) ==> parse_integer(
            chars@.skip(prefix@.len() as int),
            signed,
            min as int,
            max as int,
        ) == (match number {
            Some(v) => Some(v as int),
            None => None,
        }),
{
    if crate::utils::starts_with(chars, prefix) {
        Some(parse_decimal(chars, prefix.unicode_len(), signed, min, max))
    } else {
        None
    }
}

impl MainTerminalCommand {
    /// Reads a coded command.
    pub fn from_string(command_str: &str) -> (parsed: Result<MainTerminalCommand, ParseError>)
        ensures
            parsed == parsed_command(command_str@),
    {
        let chars = chars_of(command_str);
        if str_equal(command_str, "01::00::00") {
            return Ok(MainTerminalCommand::DeactiveteMainEngine);
        }
        if str_equal(command_str, "01::00::01") {
            return Ok(MainTerminalCommand::ActivateMainEngine);
        }
        if str_equal(command_str, "01::04::00") {
            return Ok(MainTerminalCommand::ActivateMainThrust);
        }
        if str_equal(command_str, "01::04::01") {
            return Ok(MainTerminalCommand::DeactiveteMainThrust);
        }
        if let Some(number) = number_after(&chars, "01::05::", false, 0, 255) {
            return match number {
                Some(power) => Ok(MainTerminalCommand::SetMainThrustLevel(power as u8)),
                None => Err(ParseError::InvalidPowerLevel),
            };
        }
        if str_equal(command_str, "01::09::00") {
            return Ok(MainTerminalCommand::MainEngineStatus);
        }
        if let Some(number) = number_after(&chars, "02::02::00::", true, -32768, 32767) {
            return match number {
                Some(x) => Ok(MainTerminalCommand::SetManeurXVector(x as i16)),
                None => Err(ParseError::InvalidXVector),
            };
        }
        if let Some(number) = number_after(&chars, "02::02::01::", true, -32768, 32767) {
            return match number {
                Some(y) => Ok(MainTerminalCommand::SetManeurYVector(y as i16)),
                None => Err(ParseError::InvalidYVector),
            };
        }
        if str_equal(command_str, "02::04::00") {
            return Ok(MainTerminalCommand::ActivateManeuverEngines);
        }
        if let Some(number) = number_after(&chars, "02::05::", false, 0, 255) {
            return match number {
                Some(power) => Ok(MainTerminalCommand::SetManeuverThrustLevel(power as u8)),
                None => Err(ParseError::InvalidPowerLevel),
            };
        }
        if str_equal(command_str, "02::09::00") {
            return Ok(MainTerminalCommand::ManeuverEngineStatus);
        }
        if str_equal(command_str, "07::00::00") {
            return Ok(MainTerminalCommand::DeactivateFuelPump);
        }
        if str_equal(command_str, "07::00::01") {
            return Ok(MainTerminalCommand::ActivateFuelPump);
        }
        if str_equal(command_str, "07::01::00") {
            return Ok(MainTerminalCommand::SwitchToFuelTankA);
        }
        if str_equal(command_str, "07::01::01") {
            return Ok(MainTerminalCommand::SwitchToFuelTankB);
        }
        if str_equal(command_str, "07::09::00") {
            return Ok(MainTerminalCommand::FuelSystemStatus);
        }
        Err(ParseError::InvalidCommand)
    }
}

} // verus!
