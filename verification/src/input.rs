//! What the keys of the keyboard ask for.

use vstd::prelude::*;

verus! {

/// A key of the keyboard, as far as the simulation tells keys apart.
#[derive(Clone, Copy, Debug, PartialEq, Eq, Structural)]
pub enum Key {
    C,
    Q,
    R,
    T,
    /// Any other key.
    Other,
}

/// What a key asks of the simulation.
#[derive(Clone, Copy, Debug, PartialEq, Eq, Structural)]
pub enum Command {
    /// Add one double pendulum.
    Spawn,
    /// Replace all double pendulums by a single new one.
    Reset,
    /// Show or hide the trails.
    ToggleTrail,
    /// End the program.
    Quit,
}

/// The command of each key: `C` adds a double pendulum, `R` starts over with
/// a single one, `T` shows or hides the trails, `Q` ends the program; no
/// other key does anything.
pub open spec fn spec_command_for(key: Key) -> Option<Command> {
    match key {
        Key::C => Some(Command::Spawn),
        Key::R => Some(Command::Reset),
        Key::T => Some(Command::ToggleTrail),
        Key::Q => Some(Command::Quit),
        Key::Other => None,
    }
}

/// What pressing `key` asks for, if anything.
#[verifier::when_used_as_spec(spec_command_for)]
pub fn command_for(key: Key) -> (command: Option<Command>)
    ensures
        command == spec_command_for(key),
{
    match key {
        Key::C => Some(Command::Spawn),
        Key::R => Some(Command::Reset),
        Key::T => Some(Command::ToggleTrail),
        Key::Q => Some(Command::Quit),
        Key::Other => None,
    }
}

} // verus!
