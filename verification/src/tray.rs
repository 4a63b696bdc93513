//! Decisions of the system tray and of the launch: which menu entry does
//! what, and whether the OS autostart hook started the application.

use vstd::prelude::*;
use crate::text::str_eq;

verus! {

/// Argument with which the OS autostart hook launches the application.
pub const AUTOSTART_FLAG: &'static str = "--autostart";

/// What a tray menu entry does.
#[derive(Debug, Clone, Copy, PartialEq, Eq, Structural)]
pub enum TrayAction {
    ShowWindow,
    ToggleMicMute,
    ToggleNoiseReduction,
    Quit,
    Nothing,
}

/// The action of the tray menu entry with identifier `id`.
pub fn tray_menu_action(id: &str) -> (a: TrayAction)
    ensures
        a == if id@ == "show"@ {
            TrayAction::ShowWindow
        } else if id@ == "tray_mic"@ {
            TrayAction::ToggleMicMute
        } else if id@ == "tray_nr"@ {
            TrayAction::ToggleNoiseReduction
        } else if id@ == "quit"@ {
            TrayAction::Quit
        } else {
            TrayAction::Nothing
        },
{
    if str_eq(id, "show") {
        TrayAction::ShowWindow
    } else if str_eq(id, "tray_mic") {
        TrayAction::ToggleMicMute
    } else if str_eq(id, "tray_nr") {
        TrayAction::ToggleNoiseReduction
    } else if str_eq(id, "quit") {
        TrayAction::Quit
    } else {
        TrayAction::Nothing
    }
}

/// Whether the application was started by the autostart hook, in which case
/// it starts hidden in the tray.
pub fn launched_by_autostart(args: &Vec<String>) -> (r: bool)
    ensures
        r == exists|i: int| 0 <= i < args@.len() && (#[trigger] args@[i])@ == AUTOSTART_FLAG@,
{
    let mut i: usize = 0;
    while i < args.len()
        invariant
            i <= args@.len(),
            forall|j: int| 0 <= j < i ==> (#[trigger] args@[j])@ != AUTOSTART_FLAG@,
        decreases args@.len() - i,
    {
        if str_eq(args[i].as_str(), AUTOSTART_FLAG) {
            return true;
        }
        i += 1;
    }
    false
}

} // verus!
