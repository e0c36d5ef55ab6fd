use vstd::prelude::*;

verus! {

/// What a click on a main-menu button asks for.
#[derive(Debug, Clone, Copy, PartialEq, Eq, Structural)]
pub enum MenuCommand {
    /// The button has no action of its own.
    Nothing,
    /// Hide the main menu and show the settings page.
    OpenSettings,
    /// Leave the game.
    QuitGame,
}

/// The decisions of one tick for one main-menu button.
#[derive(Debug, Clone, Copy, PartialEq, Eq, Structural)]
pub struct ButtonTick {
    /// Run the button's highlight and animation effects.
    pub highlight: bool,
    /// What the button's click asks for.
    pub command: MenuCommand,
}

pub open spec fn command_of(name: Seq<char>) -> MenuCommand {
    if name == "settings"@ {
        MenuCommand::OpenSettings
    } else if name == "quit_game"@ {
        MenuCommand::QuitGame
    } else {
        MenuCommand::Nothing
    }
}

/// The command that a click on the button named `name` gives.
pub fn command_for(name: &String) -> (c: MenuCommand)
    ensures
        c == command_of(name@),
{
    let settings = "settings".to_owned();
    let quit = "quit_game".to_owned();
    if name.eq(&settings) {
        MenuCommand::OpenSettings
    } else if name.eq(&quit) {
        MenuCommand::QuitGame
    } else {
        MenuCommand::Nothing
    }
}

/// Decides what a main-menu button does this tick: under the cursor it is
/// highlighted, and a left click under the cursor runs its command.
pub fn button_tick(name: &String, hovered: bool, clicked: bool) -> (r: ButtonTick)
    ensures
        r.highlight == hovered,
        r.command == (if hovered && clicked { command_of(name@) } else { MenuCommand::Nothing }),
{
    if hovered && clicked {
        ButtonTick { highlight: true, command: command_for(name) }
    } else {
        ButtonTick { highlight: hovered, command: MenuCommand::Nothing }
    }
}

} // verus!
