use vstd::prelude::*;
use crate::command::{
    command_parsed, is_special_name, Command, Failure, METHOD_TIMEOUT_MS, PROPERTY_TIMEOUT_MS,
};
use crate::number::i64_value;
use crate::position::{format_position, position_text};

verus! {

/// Where a command's run stands.
#[derive(Clone, Copy, Debug, PartialEq, Eq, Structural)]
pub enum Stage {
    /// Nothing sent yet.
    Idle,
    /// A method call was sent.
    AwaitCall,
    /// The volume was asked for.
    AwaitVolume,
    /// The new volume was sent.
    AwaitVolumeWrite,
    /// The position was asked for.
    AwaitPosition,
    /// The run has ended.
    Over,
}

/// A property of the player that a command reads.
#[derive(Clone, Copy, Debug, PartialEq, Eq, Structural)]
pub enum Property {
    Volume,
    Position,
}

/// What the bus gave back for the last action.
#[derive(Debug, PartialEq, Eq)]
pub enum Event {
    /// Start the run.
    Begin,
    /// The last call or property access succeeded, with nothing to read in its reply.
    Replied,
    /// The position was read, in microseconds.
    PositionRead(i64),
    /// The last call failed; the bus's message.
    CallFailed(String),
}

/// What the caller does next.
#[derive(Debug, PartialEq, Eq)]
pub enum Action {
    /// Call this method of the player's interface, with this argument if any.
    Invoke { method: String, argument: Option<i64> },
    /// Read this property.
    Read(Property),
    /// Write the volume: the value just read plus the command's offset.
    WriteVolume,
    /// Print this line; the run is over.
    Print(String),
    /// The run is over, with nothing to print.
    Finish,
    /// The run failed.
    Abort(Failure),
}

/// One command's run against one player.
pub struct Dispatch {
    pub command: Command,
    pub stage: Stage,
}

/// The name of a property on the bus.
pub open spec fn property_name(p: Property) -> Seq<char> {
    match p {
        Property::Volume => "Volume"@,
        Property::Position => "Position"@,
    }
}

/// The stage that follows `stage` when `event` comes.
pub open spec fn next_stage(command: Command, stage: Stage, event: Event) -> Stage {
    match (stage, event) {
        (Stage::Idle, Event::Begin) => match command {
            Command::Method(_) => Stage::AwaitCall,
            Command::Seek(_) => Stage::AwaitCall,
            Command::OffsetVolume => Stage::AwaitVolume,
            Command::GetFormattedPosition => Stage::AwaitPosition,
        },
        (Stage::AwaitVolume, Event::Replied) => Stage::AwaitVolumeWrite,
        _ => Stage::Over,
    }
}

/// The first action of a command.
pub open spec fn first_action_fits(command: Command, a: Action) -> bool {
    match command {
        Command::Method(m) => (a matches Action::Invoke { method, argument } && method@ == m@
            && argument is None),
        Command::Seek(v) => (a matches Action::Invoke { method, argument } && method@ == "Seek"@
            && argument == Some(v)),
        Command::OffsetVolume => a == Action::Read(Property::Volume),
        Command::GetFormattedPosition => a == Action::Read(Property::Position),
    }
}

/// `a` is the action that answers `event` at `stage`.
pub open spec fn action_fits(command: Command, stage: Stage, event: Event, a: Action) -> bool {
    match stage {
        Stage::Idle => match event {
            Event::Begin => first_action_fits(command, a),
            _ => a == Action::Abort(Failure::UnexpectedEvent),
        },
        Stage::Over => a == Action::Abort(Failure::UnexpectedEvent),
        _ => match event {
            Event::CallFailed(m) => (a matches Action::Abort(Failure::Remote(e)) && e@ == m@),
            Event::Replied => match stage {
                Stage::AwaitCall => a == Action::Finish,
                Stage::AwaitVolume => a == Action::WriteVolume,
                Stage::AwaitVolumeWrite => a == Action::Finish,
                _ => a == Action::Abort(Failure::UnexpectedEvent),
            },
            Event::PositionRead(p) => if stage == Stage::AwaitPosition {
                if p < 0 {
                    a == Action::Abort(Failure::NegativePosition(p))
                } else {
                    (a matches Action::Print(s) && s@ == position_text(p as nat))
                }
            } else {
                a == Action::Abort(Failure::UnexpectedEvent)
            },
            Event::Begin => a == Action::Abort(Failure::UnexpectedEvent),
        },
    }
}

/// How long the bus may take over `a`, in milliseconds: short for a method
/// call, longer for a property access, none for what involves no bus.
pub open spec fn action_timeout(a: Action) -> Option<u64> {
    match a {
        Action::Invoke { .. } => Some(METHOD_TIMEOUT_MS),
        Action::Read(_) => Some(PROPERTY_TIMEOUT_MS),
        Action::WriteVolume => Some(PROPERTY_TIMEOUT_MS),
        _ => None,
    }
}

impl Action {
    /// How long the bus may take over this action, in milliseconds; `None`
    /// where the action involves no bus.
    pub fn timeout_ms(&self) -> (r: Option<u64>)
        ensures
            r == action_timeout(*self),
    {
        match self {
            Action::Invoke { .. } => Some(METHOD_TIMEOUT_MS),
            Action::Read(_) => Some(PROPERTY_TIMEOUT_MS),
            Action::WriteVolume => Some(PROPERTY_TIMEOUT_MS),
            _ => None,
        }
    }
}

impl Property {
    /// The name of the property on the bus.
    pub fn name(&self) -> (r: String)
        ensures
            r@ == property_name(*self),
    {
        match self {
            Property::Volume => String::from_str("Volume"),
            Property::Position => String::from_str("Position"),
        }
    }
}

impl Dispatch {
    /// A run of `command` that has sent nothing yet.
    pub fn new(command: Command) -> (r: Dispatch)
        ensures
            r.command == command,
            r.stage == Stage::Idle,
    {
        Dispatch { command, stage: Stage::Idle }
    }

    /// Takes the bus's answer to the last action, or `Begin` at the start,
    /// and gives the next action.
    pub fn step(&mut self, event: Event) -> (r: Action)
        ensures
            final(self).command == old(self).command,
            final(self).stage == next_stage(old(self).command, old(self).stage, event),
            action_fits(old(self).command, old(self).stage, event, r),
    {
        let stage = self.stage;
        self.stage = Stage::Over;
        match stage {
            Stage::Idle => match event {
                Event::Begin => match &self.command {
                    Command::Method(m) => {
                        self.stage = Stage::AwaitCall;
                        Action::Invoke { method: m.clone(), argument: None }
                    },
                    Command::Seek(v) => {
                        self.stage = Stage::AwaitCall;
                        Action::Invoke { method: String::from_str("Seek"), argument: Some(*v) }
                    },
                    Command::OffsetVolume => {
                        self.stage = Stage::AwaitVolume;
                        Action::Read(Property::Volume)
                    },
                    Command::GetFormattedPosition => {
                        self.stage = Stage::AwaitPosition;
                        Action::Read(Property::Position)
                    },
                },
                _ => Action::Abort(Failure::UnexpectedEvent),
            },
            Stage::Over => Action::Abort(Failure::UnexpectedEvent),
            _ => match event {
                Event::CallFailed(m) => Action::Abort(Failure::Remote(m)),
                Event::Replied => match stage {
                    Stage::AwaitCall => Action::Finish,
                    Stage::AwaitVolume => {
                        self.stage = Stage::AwaitVolumeWrite;
                        Action::WriteVolume
                    },
                    Stage::AwaitVolumeWrite => Action::Finish,
                    _ => Action::Abort(Failure::UnexpectedEvent),
                },
                Event::PositionRead(p) => if stage == Stage::AwaitPosition {
                    if p < 0 {
                        Action::Abort(Failure::NegativePosition(p))
                    } else {
                        Action::Print(format_position(p as u64))
                    }
                } else {
                    Action::Abort(Failure::UnexpectedEvent)
                },
                Event::Begin => Action::Abort(Failure::UnexpectedEvent),
            },
        }
    }
}

/// The run of `c` is one call of the method `name` with no argument: it
/// starts with that call, ends with nothing printed once the call returns,
/// and fails with the bus's message when the call fails.
pub open spec fn runs_as_one_call(c: Command, name: Seq<char>) -> bool {
    &&& next_stage(c, Stage::Idle, Event::Begin) == Stage::AwaitCall
    &&& forall|a: Action| #[trigger]
        action_fits(c, Stage::Idle, Event::Begin, a) <==> (a matches Action::Invoke {
            method,
            argument,
        } && method@ == name && argument is None)
    &&& next_stage(c, Stage::AwaitCall, Event::Replied) == Stage::Over
    &&& forall|a: Action| #[trigger]
        action_fits(c, Stage::AwaitCall, Event::Replied, a) <==> a == Action::Finish
    &&& forall|m: String, a: Action| #[trigger]
        action_fits(c, Stage::AwaitCall, Event::CallFailed(m), a) <==> (a matches Action::Abort(
            Failure::Remote(e),
        ) && e@ == m@)
}

/// A name outside the known set is sent to the player as it stands, as a
/// method call with no argument, whatever argument came with it.
pub proof fn lemma_other_name_is_forwarded(
    name: Seq<char>,
    argument: Option<Seq<char>>,
    r: Result<Command, Failure>,
)
    requires
        !is_special_name(name),
        command_parsed(name, argument, r),
    ensures
        r matches Ok(Command::Method(m)) && m@ == name,
        runs_as_one_call(r->Ok_0, name),
{
}

/// Each transport command (`Next`, `Previous`, `Pause`, `PlayPause`, `Stop`,
/// `Play`) is exactly one call of the method of that name, with no argument,
/// and prints nothing when it succeeds.
pub proof fn lemma_transport_is_one_call(
    name: Seq<char>,
    argument: Option<Seq<char>>,
    r: Result<Command, Failure>,
)
    requires
        name == "Next"@ || name == "Previous"@ || name == "Pause"@ || name == "PlayPause"@
            || name == "Stop"@ || name == "Play"@,
        command_parsed(name, argument, r),
    ensures
        r matches Ok(Command::Method(m)) && m@ == name,
        runs_as_one_call(r->Ok_0, name),
{
    reveal_strlit("Next");
    reveal_strlit("Previous");
    reveal_strlit("Pause");
    reveal_strlit("PlayPause");
    reveal_strlit("Stop");
    reveal_strlit("Play");
    reveal_strlit("Seek");
    reveal_strlit("OffsetVolume");
    reveal_strlit("GetFormattedPosition");
    assert("Seek"@[2] == 'e' && "Next"@[2] == 'x' && "Stop"@[2] == 'o' && "Play"@[2] == 'a');
    assert("Seek"@.len() == 4 && "OffsetVolume"@.len() == 12 && "GetFormattedPosition"@.len()
        == 20);
    assert("Next"@.len() == 4 && "Stop"@.len() == 4 && "Play"@.len() == 4);
    assert("Previous"@.len() == 8 && "Pause"@.len() == 5 && "PlayPause"@.len() == 9);
    assert(name != "Seek"@) by {
        if name.len() == 4 {
            assert(name[2] != 'e');
        }
    }
    assert(!is_special_name(name));
    lemma_other_name_is_forwarded(name, argument, r);
}

/// `Seek` with an integer argument is one call of `Seek` with that integer,
/// and prints nothing when it succeeds.
pub proof fn lemma_seek_is_one_call(text: Seq<char>, v: i64, r: Result<Command, Failure>)
    requires
        command_parsed("Seek"@, Some(text), r),
        i64_value(text) == Some(v),
    ensures
        r == Ok::<Command, Failure>(Command::Seek(v)),
        next_stage(Command::Seek(v), Stage::Idle, Event::Begin) == Stage::AwaitCall,
        forall|a: Action| #[trigger]
            action_fits(Command::Seek(v), Stage::Idle, Event::Begin, a) <==> (a matches Action::Invoke {
                method,
                argument,
            } && method@ == "Seek"@ && argument == Some(v)),
        forall|a: Action| #[trigger]
            action_fits(Command::Seek(v), Stage::AwaitCall, Event::Replied, a) <==> a
                == Action::Finish,
{
}

/// `Seek` without an argument fails before any command exists, so nothing is
/// sent to the player.
pub proof fn lemma_seek_needs_argument(r: Result<Command, Failure>)
    requires
        command_parsed("Seek"@, None, r),
    ensures
        r matches Err(Failure::MissingArgument(n)) && n@ == "Seek"@,
{
}

/// `OffsetVolume` reads `Volume`, then, once the read has returned, writes
/// `Volume`, then ends with nothing printed: one read strictly before one write.
pub proof fn lemma_volume_reads_then_writes()
    ensures
        property_name(Property::Volume) == "Volume"@,
        next_stage(Command::OffsetVolume, Stage::Idle, Event::Begin) == Stage::AwaitVolume,
        forall|a: Action| #[trigger]
            action_fits(Command::OffsetVolume, Stage::Idle, Event::Begin, a) <==> a
                == Action::Read(Property::Volume),
        next_stage(Command::OffsetVolume, Stage::AwaitVolume, Event::Replied)
            == Stage::AwaitVolumeWrite,
        forall|a: Action| #[trigger]
            action_fits(Command::OffsetVolume, Stage::AwaitVolume, Event::Replied, a) <==> a
                == Action::WriteVolume,
        next_stage(Command::OffsetVolume, Stage::AwaitVolumeWrite, Event::Replied) == Stage::Over,
        forall|a: Action| #[trigger]
            action_fits(Command::OffsetVolume, Stage::AwaitVolumeWrite, Event::Replied, a) <==> a
                == Action::Finish,
{
}

/// A negative position ends the run with a failure and no printed line.
pub proof fn lemma_negative_position_aborts(p: i64)
    requires
        p < 0,
    ensures
        next_stage(Command::GetFormattedPosition, Stage::AwaitPosition, Event::PositionRead(p))
            == Stage::Over,
        forall|a: Action| #[trigger]
            action_fits(
                Command::GetFormattedPosition,
                Stage::AwaitPosition,
                Event::PositionRead(p),
                a,
            ) <==> a == Action::Abort(Failure::NegativePosition(p)),
{
}

} // verus!
