use vstd::prelude::*;
use crate::number::{i64_value, parse_i64};
use crate::position::push_decimal;

verus! {

/// The prefix of the bus name under which a player publishes its controls.
pub const SERVICE_PREFIX: &'static str = "org.mpris.MediaPlayer2.";

/// The object path of a player's controls.
pub const PLAYER_PATH: &'static str = "/org/mpris/MediaPlayer2";

/// The interface that holds a player's methods and properties.
pub const PLAYER_INTERFACE: &'static str = "org.mpris.MediaPlayer2.Player";

/// How long a method call may take, in milliseconds.
pub const METHOD_TIMEOUT_MS: u64 = 100;

/// How long a property read or write may take, in milliseconds.
pub const PROPERTY_TIMEOUT_MS: u64 = 5000;

/// A command, read from its name and its optional argument.
#[derive(Debug, PartialEq, Eq)]
pub enum Command {
    /// A method of the player called with no argument: `Next`, `Previous`,
    /// `Pause`, `PlayPause`, `Stop`, `Play`, or any name outside the known set.
    Method(String),
    /// `Seek`: move by this many microseconds, forward when positive.
    Seek(i64),
    /// `OffsetVolume`: read the volume, add the offset, write it back. The
    /// offset is a fraction, which the caller keeps.
    OffsetVolume,
    /// `GetFormattedPosition`: read the position and print it.
    GetFormattedPosition,
}

/// Why a command could not be carried out.
#[derive(Debug, PartialEq, Eq)]
pub enum Failure {
    /// The command, named here, needs an argument and got none.
    MissingArgument(String),
    /// The argument of a command is not a number of its kind.
    MalformedArgument { command: String, argument: String },
    /// A bus call failed; the bus's own message.
    Remote(String),
    /// The player reported this negative position.
    NegativePosition(i64),
    /// An event came that the current stage does not wait for.
    UnexpectedEvent,
}

/// The names that have a meaning of their own; every other name is a plain
/// method call.
pub open spec fn is_special_name(name: Seq<char>) -> bool {
    name == "Seek"@ || name == "OffsetVolume"@ || name == "GetFormattedPosition"@
}

/// The text of an optional argument.
pub open spec fn argument_view(argument: Option<&str>) -> Option<Seq<char>> {
    match argument {
        Some(t) => Some(t@),
        None => None,
    }
}

/// `r` is the command read from `name` and `argument`: `Seek` and
/// `OffsetVolume` fail without an argument, `Seek` fails on one that is no
/// signed 64-bit integer, and every name outside the known set is a method.
pub open spec fn command_parsed(
    name: Seq<char>,
    argument: Option<Seq<char>>,
    r: Result<Command, Failure>,
) -> bool {
    &&& name == "Seek"@ ==> match argument {
        None => r matches Err(Failure::MissingArgument(n)) && n@ == name,
        Some(t) => match i64_value(t) {
            Some(v) => r matches Ok(Command::Seek(w)) && w == v,
            None => (r matches Err(Failure::MalformedArgument { command, argument: a })
                && command@ == name && a@ == t),
        },
    }
    &&& name == "OffsetVolume"@ ==> match argument {
        None => r matches Err(Failure::MissingArgument(n)) && n@ == name,
        Some(_) => r matches Ok(Command::OffsetVolume),
    }
    &&& name == "GetFormattedPosition"@ ==> (r matches Ok(Command::GetFormattedPosition))
    &&& !is_special_name(name) ==> (r matches Ok(Command::Method(m)) && m@ == name)
}

/// The bus name of the player `player`.
pub open spec fn service_name(player: Seq<char>) -> Seq<char> {
    SERVICE_PREFIX@ + player
}

/// The decimal text of an integer, with a `-` in front when it is negative.
pub open spec fn signed_decimal(v: int) -> Seq<char> {
    if v < 0 {
        seq!['-'] + crate::position::decimal((-v) as nat)
    } else {
        crate::position::decimal(v as nat)
    }
}

/// The message that reports a failure.
pub open spec fn failure_text(f: Failure) -> Seq<char> {
    match f {
        Failure::MissingArgument(n) => "No argument for "@ + n@ + " command"@,
        Failure::MalformedArgument { command, argument } => "Invalid argument for "@ + command@
            + " command: \""@ + argument@ + "\" is not a signed 64-bit integer"@,
        Failure::Remote(m) => m@,
        Failure::NegativePosition(v) => "Wrong returned value for position: "@ + signed_decimal(
            v as int,
        ),
        Failure::UnexpectedEvent => "Unexpected reply from the player"@,
    }
}

impl Failure {
    /// The message that reports this failure.
    pub fn message(&self) -> (r: String)
        ensures
            r@ == failure_text(*self),
    {
        match self {
            Failure::MissingArgument(n) => {
                let mut out = String::from_str("No argument for ");
                out.append(n.as_str());
                out.append(" command");
                out
            },
            Failure::MalformedArgument { command, argument } => {
                let mut out = String::from_str("Invalid argument for ");
                out.append(command.as_str());
                out.append(" command: \"");
                out.append(argument.as_str());
                out.append("\" is not a signed 64-bit integer");
                out
            },
            Failure::Remote(m) => m.clone(),
            Failure::NegativePosition(v) => {
                let mut out = String::from_str("Wrong returned value for position: ");
                if *v < 0 {
                    proof {
                        reveal_strlit("-");
                    }
                    out.append("-");
                    push_decimal(&mut out, (0 - (*v as i128)) as u64);
                } else {
                    push_decimal(&mut out, *v as u64);
                }
                assert(out@ =~= failure_text(*self));
                out
            },
            Failure::UnexpectedEvent => String::from_str("Unexpected reply from the player"),
        }
    }
}

/// The bus name of the player `player`: the fixed prefix, then the name.
pub fn service_address(player: &str) -> (r: String)
    ensures
        r@ == service_name(player@),
{
    let mut out = String::from_str(SERVICE_PREFIX);
    out.append(player);
    out
}

/// Reads a command from its name and its optional argument. Names are matched
/// exactly; `Seek` and `OffsetVolume` need an argument, and `Seek`'s must be a
/// signed 64-bit integer. Any name outside the known set is a method call with
/// no argument.
pub fn parse_command(name: &str, argument: Option<&str>) -> (r: Result<Command, Failure>)
    ensures
        command_parsed(name@, argument_view(argument), r),
{
    proof {
        reveal_strlit("Seek");
        reveal_strlit("OffsetVolume");
        reveal_strlit("GetFormattedPosition");
        assert("Seek"@.len() != "OffsetVolume"@.len());
        assert("Seek"@.len() != "GetFormattedPosition"@.len());
        assert("OffsetVolume"@.len() != "GetFormattedPosition"@.len());
    }
    let owned = String::from_str(name);
    if owned == String::from_str("Seek") {
        match argument {
            None => Err(Failure::MissingArgument(owned)),
            Some(t) => match parse_i64(t) {
                Some(v) => Ok(Command::Seek(v)),
                None => Err(
                    Failure::MalformedArgument { command: owned, argument: String::from_str(t) },
                ),
            },
        }
    } else if owned == String::from_str("OffsetVolume") {
        match argument {
            None => Err(Failure::MissingArgument(owned)),
            Some(_) => Ok(Command::OffsetVolume),
        }
    } else if owned == String::from_str("GetFormattedPosition") {
        Ok(Command::GetFormattedPosition)
    } else {
        Ok(Command::Method(owned))
    }
}

} // verus!
