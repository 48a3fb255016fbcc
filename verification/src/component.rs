//! The message vocabulary of the user-interface components: what the tray
//! menu can ask for, what the terminal can ask for, and what the supervisor
//! reports back.

use crate::status::ExitStatus;
use vstd::prelude::*;

verus! {

/// An action selected in the tray menu.
#[allow(non_camel_case_types)]
pub enum MenuAction {
    /// A menu entry this component does not know, by its identifier.
    UNKNOWN(String),
    /// Start the program, or stop it when it is running.
    RUN,
    /// Show or hide the terminal window.
    VISIBILITY,
    /// Quit the application.
    QUIT,
}

/// An action requested by the terminal window.
#[allow(non_camel_case_types)]
pub enum TerminalAction {
    /// Hide the terminal window.
    HIDE,
}

/// One message passed between the components.
pub enum Message {
    /// A tray menu selection.
    TrayMenu(MenuAction),
    /// A terminal window request.
    Terminal(TerminalAction),
    /// A decoded chunk of the supervised program's output.
    ProgramOutput(String),
    /// The supervised program has ended with this status.
    ProgramStopped(ExitStatus),
}

} // verus!
