//! The key map: Escape asks to close, the arrow keys move the camera.

use vstd::prelude::*;
use crate::camera::MovementType;

verus! {

/// What a key is doing.
#[derive(Clone, Copy, Debug, PartialEq, Eq, Structural)]
pub enum Action {
    Release,
    Press,
    Repeat,
}

/// The keys the map knows; every other key is `Other`.
#[derive(Clone, Copy, Debug, PartialEq, Eq, Structural)]
pub enum Key {
    Escape,
    Up,
    Down,
    Left,
    Right,
    Other,
}

/// The state of the mapped keys at one poll.
#[derive(Clone, Copy, Debug, PartialEq, Eq, Structural)]
pub struct Keys {
    pub escape: Action,
    pub up: Action,
    pub down: Action,
    pub left: Action,
    pub right: Action,
}

/// What the viewer asks for.
#[derive(Clone, Copy, Debug, PartialEq, Eq, Structural)]
pub enum Command {
    /// Close the window.
    Close,
    /// Move the camera along its front axis.
    Dolly(MovementType),
    /// Move the camera along its right axis.
    Pan(MovementType),
}

/// The command a key gives while it is pressed.
pub open spec fn command_of(key: Key) -> Option<Command> {
    match key {
        Key::Escape => Some(Command::Close),
        Key::Up => Some(Command::Dolly(MovementType::FORWARD)),
        Key::Down => Some(Command::Dolly(MovementType::BACKWARD)),
        Key::Left => Some(Command::Pan(MovementType::LEFT)),
        Key::Right => Some(Command::Pan(MovementType::RIGHT)),
        Key::Other => None,
    }
}

/// The command of a key in a state: its command if the state is `Press`,
/// none otherwise.
pub open spec fn given(key: Key, action: Action) -> Seq<Command> {
    if action == Action::Press && command_of(key) is Some {
        seq![command_of(key).unwrap()]
    } else {
        seq![]
    }
}

/// The commands of one poll: those of Escape, Up, Down, Left and Right, in
/// this order.
pub open spec fn commands_of(keys: Keys) -> Seq<Command> {
    given(Key::Escape, keys.escape) + given(Key::Up, keys.up) + given(Key::Down, keys.down)
        + given(Key::Left, keys.left) + given(Key::Right, keys.right)
}

/// Whether a command has an effect: a dolly goes forward or
/// backward, a pan left or right.
pub open spec fn effective(command: Command) -> bool {
    match command {
        Command::Close => true,
        Command::Dolly(movement) => movement.dolly() is Some,
        Command::Pan(movement) => movement.pan() is Some,
    }
}

/// The command of a key in a state: the command of the key if the state is
/// `Press`, none otherwise.
pub fn key_command(key: Key, action: Action) -> (command: Option<Command>)
    ensures
        command == if action == Action::Press { command_of(key) } else { None },
        command matches Some(c) ==> effective(c),
{
    if action != Action::Press {
        return None;
    }
    match key {
        Key::Escape => Some(Command::Close),
        Key::Up => Some(Command::Dolly(MovementType::FORWARD)),
        Key::Down => Some(Command::Dolly(MovementType::BACKWARD)),
        Key::Left => Some(Command::Pan(MovementType::LEFT)),
        Key::Right => Some(Command::Pan(MovementType::RIGHT)),
        Key::Other => None,
    }
}

/// The command of one key event: `Close` if Escape is pressed, none for any
/// other event.
pub fn handle_window_events(key: Key, action: Action) -> (command: Option<Command>)
    ensures
        command == if key == Key::Escape && action == Action::Press {
            Some(Command::Close)
        } else {
            None
        },
{
    if key == Key::Escape && action == Action::Press {
        Some(Command::Close)
    } else {
        None
    }
}

/// The commands of one poll of the keys, in the order in which they are to
/// be carried out.
pub fn process_inputs(keys: Keys) -> (commands: Vec<Command>)
    ensures
        commands@ == commands_of(keys),
        forall|i: int| 0 <= i < commands@.len() ==> effective(#[trigger] commands@[i]),
{
    let mut commands: Vec<Command> = Vec::new();
    if let Some(command) = key_command(Key::Escape, keys.escape) {
        commands.push(command);
    }
    assert(commands@ =~= given(Key::Escape, keys.escape));
    if let Some(command) = key_command(Key::Up, keys.up) {
        commands.push(command);
    }
    assert(commands@ =~= given(Key::Escape, keys.escape) + given(Key::Up, keys.up));
    if let Some(command) = key_command(Key::Down, keys.down) {
        commands.push(command);
    }
    assert(commands@ =~= given(Key::Escape, keys.escape) + given(Key::Up, keys.up) + given(
        Key::Down,
        keys.down,
    ));
    if let Some(command) = key_command(Key::Left, keys.left) {
        commands.push(command);
    }
    assert(commands@ =~= given(Key::Escape, keys.escape) + given(Key::Up, keys.up) + given(
        Key::Down,
        keys.down,
    ) + given(Key::Left, keys.left));
    if let Some(command) = key_command(Key::Right, keys.right) {
        commands.push(command);
    }
    assert(commands@ =~= commands_of(keys));
    commands
}

} // verus!
