use vstd::prelude::*;

verus! {

/// An operation on the primary window or the application.
#[derive(Clone, Copy, Debug, PartialEq, Eq, Structural)]
pub enum WindowCommand {
    Show,
    Unminimize,
    SetFocus,
    /// Terminate the application with exit status `code`.
    Exit { code: i32 },
}

/// A request from the tray.
#[derive(Clone, Copy, Debug, PartialEq, Eq, Structural)]
pub enum UiEvent {
    /// The tray icon was clicked.
    PrimaryClickRequested,
    /// The tray menu's "show" item was chosen.
    ShowRequested,
    /// The tray menu's "exit_app" item was chosen.
    ExitRequested,
}

/// Id of the tray menu item that shows the window.
pub const SHOW_ITEM_ID: &'static str = "show";

/// Id of the tray menu item that quits.
pub const EXIT_ITEM_ID: &'static str = "exit_app";

/// The tray request that the menu item `id` stands for, if any.
pub open spec fn ui_event_of_item(id: Seq<char>) -> Option<UiEvent> {
    if id == SHOW_ITEM_ID@ {
        Some(UiEvent::ShowRequested)
    } else if id == EXIT_ITEM_ID@ {
        Some(UiEvent::ExitRequested)
    } else {
        None
    }
}

/// The commands that bring the primary window back to the front.
pub open spec fn restore_commands() -> Seq<WindowCommand> {
    seq![WindowCommand::Show, WindowCommand::Unminimize, WindowCommand::SetFocus]
}

/// The commands that answer the tray request `e`.
pub open spec fn commands_for(e: UiEvent) -> Seq<WindowCommand> {
    match e {
        UiEvent::PrimaryClickRequested => restore_commands(),
        UiEvent::ShowRequested => seq![WindowCommand::Show],
        UiEvent::ExitRequested => seq![WindowCommand::Exit { code: 0 }],
    }
}

/// Looks up the tray request of the menu item `id`.
pub fn menu_event(id: &str) -> (r: Option<UiEvent>)
    ensures
        r == ui_event_of_item(id@),
{
    let id = id.to_owned();
    if id == String::from_str(SHOW_ITEM_ID) {
        Some(UiEvent::ShowRequested)
    } else if id == String::from_str(EXIT_ITEM_ID) {
        Some(UiEvent::ExitRequested)
    } else {
        None
    }
}

/// The commands that answer the tray request `e`.
pub fn ui_commands(e: UiEvent) -> (r: Vec<WindowCommand>)
    ensures
        r@ == commands_for(e),
{
    match e {
        UiEvent::PrimaryClickRequested => restore_window(),
        UiEvent::ShowRequested => vec![WindowCommand::Show],
        UiEvent::ExitRequested => vec![WindowCommand::Exit { code: 0 }],
    }
}

fn restore_window() -> (r: Vec<WindowCommand>)
    ensures
        r@ == restore_commands(),
{
    vec![WindowCommand::Show, WindowCommand::Unminimize, WindowCommand::SetFocus]
}

/// What the lock holder does when another launch forwards its arguments
/// and working directory: it restores its window and otherwise
/// ignores them.
pub fn activation_commands(_argv: &Vec<String>, _cwd: &str) -> (r: Vec<WindowCommand>)
    ensures
        r@ == restore_commands(),
{
    restore_window()
}

} // verus!
