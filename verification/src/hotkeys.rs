//! Global hotkeys: Ctrl+Alt+M toggles the mic mute, Ctrl+Alt+1..9 switch to
//! the N-th saved profile (the frontend applies it on the profile event).

use vstd::prelude::*;

verus! {

/// Event telling the frontend the new mic mute state.
pub const MIC_MUTE_EVENT: &'static str = "hotkey:mic-mute";

/// Event telling the frontend which profile slot (0-based) to apply.
pub const PROFILE_EVENT: &'static str = "hotkey:profile";

/// A key pressed together with Ctrl+Alt.
#[derive(Debug, Clone, Copy, PartialEq, Eq, Structural)]
pub enum HotkeyKey {
    /// A digit key, 1 to 9.
    Digit(u8),
    /// The M key.
    M,
}

#[derive(Debug, Clone, Copy, PartialEq, Eq, Structural)]
pub enum HotkeyAction {
    ToggleMicMute,
    /// Switch to the saved profile with this 0-based index.
    Profile(u8),
}

/// The hotkeys to register: Ctrl+Alt+`n` selects profile `n - 1` for `n`
/// from 1 to 9, then Ctrl+Alt+M toggles the mic mute.
pub fn bindings() -> (v: Vec<(HotkeyKey, HotkeyAction)>)
    ensures
        v@.len() == 10,
        forall|i: int|
            0 <= i < 9 ==> #[trigger] v@[i] == (
                HotkeyKey::Digit((i + 1) as u8),
                HotkeyAction::Profile(i as u8),
            ),
        v@[9] == (HotkeyKey::M, HotkeyAction::ToggleMicMute),
{
    let mut v: Vec<(HotkeyKey, HotkeyAction)> = Vec::new();
    let mut i: u8 = 0;
    while i < 9
        invariant
            i <= 9,
            v@.len() == i,
            forall|j: int|
                0 <= j < i ==> #[trigger] v@[j] == (
                    HotkeyKey::Digit((j + 1) as u8),
                    HotkeyAction::Profile(j as u8),
                ),
        decreases 9 - i,
    {
        v.push((HotkeyKey::Digit(i + 1), HotkeyAction::Profile(i)));
        i += 1;
    }
    v.push((HotkeyKey::M, HotkeyAction::ToggleMicMute));
    v
}

/// The action to take for a hotkey event: the bound action of a press;
/// releases and unbound keys do nothing.
pub fn action_for_event(pressed: bool, bound: Option<HotkeyAction>) -> (r: Option<HotkeyAction>)
    ensures
        r == (if pressed {
            bound
        } else {
            None
        }),
{
    if pressed {
        bound
    } else {
        None
    }
}

/// The mic mute state to set when toggling from `current`.
pub fn toggled_mute(current: bool) -> (r: bool)
    ensures
        r == !current,
{
    !current
}

/// The mute state to announce on [`MIC_MUTE_EVENT`] after trying to set
/// `new_state`: announced only when the set succeeded.
pub fn mute_announcement(new_state: bool, set_succeeded: bool) -> (r: Option<bool>)
    ensures
        r == (if set_succeeded {
            Some(new_state)
        } else {
            None
        }),
{
    if set_succeeded {
        Some(new_state)
    } else {
        None
    }
}

} // verus!
