//! Input records and the modifier-key filter.

use vstd::prelude::*;

verus! {

/// Virtual-key code of the Shift key.
pub const KEY_SHIFT: u16 = 0x10;

/// Virtual-key code of the Ctrl key.
pub const KEY_CTRL: u16 = 0x11;

/// Virtual-key code of the Alt key.
pub const KEY_ALT: u16 = 0x12;

/// Virtual-key code of the Caps Lock key.
pub const KEY_CAPS_LOCK: u16 = 0x14;

/// Virtual-key code of the Print Screen key.
pub const KEY_PRINT_SCREEN: u16 = 0x2c;

/// Virtual-key code of the left OS-meta key.
pub const KEY_LEFT_WINDOWS: u16 = 0x5b;

/// Virtual-key code of the right OS-meta key.
pub const KEY_RIGHT_WINDOWS: u16 = 0x5c;

/// Virtual-key code of the context-menu key.
pub const KEY_APPLICATIONS: u16 = 0x5d;

/// Virtual-key code of the Num Lock key.
pub const KEY_NUM_LOCK: u16 = 0x90;

/// Virtual-key code of the Scroll Lock key.
pub const KEY_SCROLL_LOCK: u16 = 0x91;

/// A virtual-key code that names a pure modifier or lock key. Pressing one
/// of these alone conveys no confirming intent, so it must not end the wait.
pub open spec fn is_modifier(key: u16) -> bool {
    ||| key == KEY_SHIFT
    ||| key == KEY_CTRL
    ||| key == KEY_ALT
    ||| key == KEY_CAPS_LOCK
    ||| key == KEY_PRINT_SCREEN
    ||| key == KEY_LEFT_WINDOWS
    ||| key == KEY_RIGHT_WINDOWS
    ||| key == KEY_APPLICATIONS
    ||| key == KEY_NUM_LOCK
    ||| key == KEY_SCROLL_LOCK
}

/// Whether `key` is a pure modifier or lock key.
pub fn is_mod_key(key: u16) -> (r: bool)
    ensures
        r == is_modifier(key),
{
    key == KEY_SHIFT
        || key == KEY_CTRL
        || key == KEY_ALT
        || key == KEY_CAPS_LOCK
        || key == KEY_PRINT_SCREEN
        || key == KEY_LEFT_WINDOWS
        || key == KEY_RIGHT_WINDOWS
        || key == KEY_APPLICATIONS
        || key == KEY_NUM_LOCK
        || key == KEY_SCROLL_LOCK
}

/// One record taken from the console's input queue, seen after the kind
/// discriminator has been inspected: a key event carries its down flag and
/// virtual-key code; every other kind of record (mouse, resize, focus,
/// menu) carries nothing the wait cares about.
#[derive(Clone, Copy, Debug, PartialEq, Eq, Structural)]
pub enum InputEvent {
    /// A key event: `down` is true for the press and false for the release
    /// of the key named by `code`.
    Key { down: bool, code: u16 },
    /// A record of any non-key kind.
    Other,
}

/// The one kind of record that ends the wait: the down transition of a key
/// that is not a pure modifier.
pub open spec fn satisfies_wait(e: InputEvent) -> bool {
    e matches InputEvent::Key { down, code } && down && !is_modifier(code)
}

/// Whether `e` is a deliberate key press, that is, a key-down event for a
/// non-modifier key.
pub fn event_satisfies(e: &InputEvent) -> (r: bool)
    ensures
        r == satisfies_wait(*e),
{
    match e {
        InputEvent::Key { down, code } => *down && !is_mod_key(*code),
        InputEvent::Other => false,
    }
}

} // verus!
