//! The tray controller: a two-item menu whose toggle item hides and shows the
//! main window, and whose quit item ends the application.
use vstd::prelude::*;
use vstd::string::*;

verus! {

/// Identifier of the menu item that hides or shows the window.
pub const TOGGLE_ID: &'static str = "toggle";

/// Identifier of the menu item that ends the application.
pub const QUIT_ID: &'static str = "quit";

/// Where the main window stands.
#[derive(Clone, Copy, Debug, PartialEq, Eq, Structural)]
pub enum TrayState {
    Visible,
    Hidden,
    /// The application has quit; nothing is handled any more.
    Exited,
}

/// What the host has to do after an event.
#[derive(Clone, Copy, Debug, PartialEq, Eq, Structural)]
pub enum TrayAction {
    Nothing,
    /// Hide the window and set the toggle item's title to the hidden label.
    HideWindow,
    /// Show the window, centre it on screen and set the toggle item's title
    /// to the visible label.
    ShowAndCenter,
    /// End the process with this exit code.
    Exit { code: i32 },
}

/// An event from the tray icon.
#[derive(Debug)]
pub enum TrayEvent {
    /// A menu item was clicked.
    MenuItemClick { id: String },
    /// Any other interaction with the icon.
    Other,
}

/// One entry of the tray menu.
#[derive(Debug)]
pub struct MenuItem {
    pub id: String,
    pub title: String,
}

/// The title of the toggle item in a given state: it names what a click does.
pub open spec fn label_of(state: TrayState) -> Seq<char> {
    match state {
        TrayState::Visible => "Hide"@,
        TrayState::Hidden => "Show"@,
        TrayState::Exited => seq![],
    }
}

/// Whether the application is still handling events.
pub open spec fn is_running(state: TrayState) -> bool {
    state != TrayState::Exited
}

/// The next state and the action for an event.
pub open spec fn event_step(state: TrayState, event: TrayEvent) -> (TrayState, TrayAction) {
    match event {
        TrayEvent::MenuItemClick { id } => {
            if !is_running(state) {
                (state, TrayAction::Nothing)
            } else if id@ == QUIT_ID@ {
                (TrayState::Exited, TrayAction::Exit { code: 0 })
            } else if id@ == TOGGLE_ID@ {
                toggle_step(state)
            } else {
                (state, TrayAction::Nothing)
            }
        },
        TrayEvent::Other => (state, TrayAction::Nothing),
    }
}

/// A click on the toggle item.
pub open spec fn toggle_step(state: TrayState) -> (TrayState, TrayAction) {
    match state {
        TrayState::Visible => (TrayState::Hidden, TrayAction::HideWindow),
        TrayState::Hidden => (TrayState::Visible, TrayAction::ShowAndCenter),
        TrayState::Exited => (TrayState::Exited, TrayAction::Nothing),
    }
}

/// A direct request to hide the window.
pub open spec fn hide_step(state: TrayState) -> (TrayState, TrayAction) {
    if is_running(state) {
        (TrayState::Hidden, TrayAction::HideWindow)
    } else {
        (state, TrayAction::Nothing)
    }
}

/// The tray menu at start-up: the toggle item, titled for a visible window,
/// then the quit item.
pub fn make_tray() -> (r: Vec<MenuItem>)
    ensures
        r@.len() == 2,
        r@[0].id@ == TOGGLE_ID@,
        r@[0].title@ == label_of(TrayState::Visible),
        r@[1].id@ == QUIT_ID@,
        r@[1].title@ == "Quit"@,
{
    let mut r: Vec<MenuItem> = Vec::new();
    r.push(MenuItem { id: String::from_str(TOGGLE_ID), title: String::from_str("Hide") });
    r.push(MenuItem { id: String::from_str(QUIT_ID), title: String::from_str("Quit") });
    r
}

/// The title that the toggle item shows in `state`; none once the
/// application has quit.
pub fn toggle_label(state: TrayState) -> (r: Option<String>)
    ensures
        is_running(state) <==> r is Some,
        r matches Some(s) ==> s@ == label_of(state),
{
    match state {
        TrayState::Visible => Some(String::from_str("Hide")),
        TrayState::Hidden => Some(String::from_str("Show")),
        TrayState::Exited => None,
    }
}

/// Handles a tray event: the quit item ends the application with exit code
/// 0, the toggle item flips the window between visible and hidden; every
/// other event, and every event after quitting, does nothing.
pub fn handle_tray_event(state: TrayState, event: &TrayEvent) -> (r: (TrayState, TrayAction))
    ensures
        r == event_step(state, *event),
{
    if state == TrayState::Exited {
        return (state, TrayAction::Nothing);
    }
    match event {
        TrayEvent::MenuItemClick { id } => {
            let quit = String::from_str(QUIT_ID);
            let toggle = String::from_str(TOGGLE_ID);
            if *id == quit {
                (TrayState::Exited, TrayAction::Exit { code: 0 })
            } else if *id == toggle {
                match state {
                    TrayState::Visible => (TrayState::Hidden, TrayAction::HideWindow),
                    _ => (TrayState::Visible, TrayAction::ShowAndCenter),
                }
            } else {
                (state, TrayAction::Nothing)
            }
        },
        TrayEvent::Other => (state, TrayAction::Nothing),
    }
}

/// Hides the window whatever its current state, while the application runs.
pub fn hide_window(state: TrayState) -> (r: (TrayState, TrayAction))
    ensures
        r == hide_step(state),
{
    if state == TrayState::Exited {
        (state, TrayAction::Nothing)
    } else {
        (TrayState::Hidden, TrayAction::HideWindow)
    }
}

/// A click on the toggle item, from either running state, flips the window and
/// retitles the toggle item; a second click restores the state it started
/// from. From a visible window the first click hides it under the title
/// "Show", the second shows and centres it under the title "Hide".
pub proof fn toggle_twice_restores(state: TrayState, event: TrayEvent)
    requires
        is_running(state),
        event matches TrayEvent::MenuItemClick { id } && id@ == TOGGLE_ID@,
    ensures
        event_step(event_step(state, event).0, event).0 == state,
        is_running(event_step(state, event).0),
        event_step(state, event).0 != state,
        state == TrayState::Visible ==> {
            &&& event_step(state, event) == (TrayState::Hidden, TrayAction::HideWindow)
            &&& label_of(event_step(state, event).0) == "Show"@
            &&& event_step(TrayState::Hidden, event) == (
            TrayState::Visible,
            TrayAction::ShowAndCenter,
            )
            &&& label_of(TrayState::Visible) == "Hide"@
        },
        state == TrayState::Hidden ==> {
            &&& event_step(state, event) == (TrayState::Visible, TrayAction::ShowAndCenter)
            &&& label_of(event_step(state, event).0) == "Hide"@
            &&& event_step(TrayState::Visible, event) == (TrayState::Hidden, TrayAction::HideWindow)
            &&& label_of(TrayState::Hidden) == "Show"@
        },
{
    reveal_strlit("toggle");
    reveal_strlit("quit");
    assert(QUIT_ID@[0] != TOGGLE_ID@[0]);
}

/// Hiding is idempotent: a second request changes nothing, and a running
/// application ends up hidden with the toggle item titled "Show".
pub proof fn hide_is_idempotent(state: TrayState)
    ensures
        hide_step(hide_step(state).0) == hide_step(state),
        is_running(state) ==> hide_step(state) == (TrayState::Hidden, TrayAction::HideWindow),
        is_running(state) ==> label_of(hide_step(state).0) == "Show"@,
{
}

/// A click on the quit item, from either running state, ends the
/// application with exit code 0; after that no event and no hide request
/// leads to any action.
pub proof fn quit_is_final(state: TrayState, quit: TrayEvent, later: TrayEvent)
    requires
        is_running(state),
        quit matches TrayEvent::MenuItemClick { id } && id@ == QUIT_ID@,
    ensures
        event_step(state, quit) == (TrayState::Exited, TrayAction::Exit { code: 0 }),
        event_step(event_step(state, quit).0, later) == (TrayState::Exited, TrayAction::Nothing),
        hide_step(event_step(state, quit).0) == (TrayState::Exited, TrayAction::Nothing),
{
}

} // verus!
