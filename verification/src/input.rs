//! The keyboard interrupt handler's decisions.
//!
//! The driver's decode tables turn scancodes into key events and decoded
//! keys; that decoding is the keyboard collaborator's work.  What happens
//! with a decoded key — tracking the modifier keys, turning the arrow keys
//! into control sequences, rebooting on the three-finger salute, handing
//! ordinary keys to the console — is decided here.
use vstd::prelude::*;

use crate::console::{Console, EchoOutput};
use vstd::string::StringSliceAdditionalSpecFns;

verus! {

broadcast use vstd::string::is_ascii_spec_bytes;

/// The keys the interrupt handler's decisions distinguish.
#[derive(Debug, Clone, Copy, PartialEq, Eq, Structural)]
pub enum KeyKind {
    LAlt,
    RAltGr,
    LShift,
    RShift,
    LControl,
    RControl,
    ArrowUp,
    ArrowDown,
    ArrowRight,
    ArrowLeft,
    Other,
}

/// Whether a key went down or up.
#[derive(Debug, Clone, Copy, PartialEq, Eq, Structural)]
pub enum KeyState {
    Down,
    Up,
}

/// One key event, as the driver's decode tables report it.
#[derive(Debug, Clone, Copy, PartialEq, Eq, Structural)]
pub struct KeyEventInfo {
    pub kind: KeyKind,
    pub state: KeyState,
}

/// A decoded key: a character, or a named key without one.
#[derive(Debug, Clone, Copy, PartialEq, Eq, Structural)]
pub enum DecodedInput {
    Unicode(char),
    RawKey(KeyKind),
}

/// The states of the ALT, CTRL and SHIFT keys.
#[derive(Debug, Clone, Copy, PartialEq, Eq, Structural)]
pub struct ModifierState {
    pub alt: bool,
    pub ctrl: bool,
    pub shift: bool,
}

/// What the modifier states become after one key event: the modifier the
/// event names follows the key, everything else stays.
pub open spec fn modifiers_after(mods: ModifierState, event: KeyEventInfo) -> ModifierState {
    let down = event.state == KeyState::Down;
    match event.kind {
        KeyKind::LAlt | KeyKind::RAltGr => ModifierState { alt: down, ..mods },
        KeyKind::LShift | KeyKind::RShift => ModifierState { shift: down, ..mods },
        KeyKind::LControl | KeyKind::RControl => ModifierState { ctrl: down, ..mods },
        _ => mods,
    }
}

impl ModifierState {
    /// All keys up.
    pub fn new() -> (mods: ModifierState)
        ensures
            mods == (ModifierState { alt: false, ctrl: false, shift: false }),
    {
        ModifierState { alt: false, ctrl: false, shift: false }
    }

    /// Follows one key event.
    pub fn update(&mut self, event: KeyEventInfo)
        ensures
            *final(self) == modifiers_after(*old(self), event),
    {
        let down = matches!(event.state, KeyState::Down);
        match event.kind {
            KeyKind::LAlt | KeyKind::RAltGr => {
                self.alt = down;
            },
            KeyKind::LShift | KeyKind::RShift => {
                self.shift = down;
            },
            KeyKind::LControl | KeyKind::RControl => {
                self.ctrl = down;
            },
            _ => {},
        }
    }
}

/// What the handler does with one decoded key.
#[derive(Debug, Clone, Copy, PartialEq, Eq, Structural)]
pub enum KeyAction {
    /// Send the cursor-up control sequence to the console.
    CursorUp,
    /// Send the cursor-down control sequence.
    CursorDown,
    /// Send the cursor-right control sequence.
    CursorRight,
    /// Send the cursor-left control sequence.
    CursorLeft,
    /// Send the back-tab control sequence (a shifted tab).
    BackTab,
    /// Reboot the machine (ALT and CTRL held with delete).
    Reboot,
    /// Hand the character to the console.
    Key(char),
    /// Nothing: a key the handler ignores.
    Nothing,
}

/// The action one decoded key leads to, under the given modifier states.
pub open spec fn action_for(mods: ModifierState, decoded: Option<DecodedInput>) -> KeyAction {
    match decoded {
        Option::None => KeyAction::Nothing,
        Option::Some(DecodedInput::RawKey(KeyKind::ArrowUp)) => KeyAction::CursorUp,
        Option::Some(DecodedInput::RawKey(KeyKind::ArrowDown)) => KeyAction::CursorDown,
        Option::Some(DecodedInput::RawKey(KeyKind::ArrowRight)) => KeyAction::CursorRight,
        Option::Some(DecodedInput::RawKey(KeyKind::ArrowLeft)) => KeyAction::CursorLeft,
        Option::Some(DecodedInput::RawKey(_)) => KeyAction::Nothing,
        Option::Some(DecodedInput::Unicode(key)) => if key == '\u{9}' && mods.shift {
            KeyAction::BackTab
        } else if key == '\u{7F}' && mods.alt && mods.ctrl {
            KeyAction::Reboot
        } else {
            KeyAction::Key(key)
        },
    }
}

/// Handles one key event from the keyboard interrupt: follows the modifier
/// keys, then decides what the decoded key leads to under the new modifier
/// states — exactly `action_for`.
pub fn keyboard_irq_handler(
    mods: &mut ModifierState,
    event: KeyEventInfo,
    decoded: Option<DecodedInput>,
) -> (action: KeyAction)
    ensures
        *final(mods) == modifiers_after(*old(mods), event),
        action == action_for(*final(mods), decoded),
{
    mods.update(event);
    match decoded {
        None => KeyAction::Nothing,
        Some(DecodedInput::RawKey(KeyKind::ArrowUp)) => KeyAction::CursorUp,
        Some(DecodedInput::RawKey(KeyKind::ArrowDown)) => KeyAction::CursorDown,
        Some(DecodedInput::RawKey(KeyKind::ArrowRight)) => KeyAction::CursorRight,
        Some(DecodedInput::RawKey(KeyKind::ArrowLeft)) => KeyAction::CursorLeft,
        Some(DecodedInput::RawKey(_)) => KeyAction::Nothing,
        Some(DecodedInput::Unicode(key)) => {
            if key == '\u{9}' && mods.shift {
                KeyAction::BackTab
            } else if key == '\u{7F}' && mods.alt && mods.ctrl {
                KeyAction::Reboot
            } else {
                KeyAction::Key(key)
            }
        },
    }
}

/// Sends a key to the console.
pub fn send_key(console: &mut Console, c: char) -> (echoed: EchoOutput)
    ensures
        final(console).echo() == old(console).echo(),
        final(console).raw() == old(console).raw(),
        final(console).pending() == crate::console::pending_after_key(
            old(console).pending(),
            old(console).raw(),
            c,
        ),
        echoed == crate::console::echo_for_key(
            old(console).pending(),
            old(console).echo(),
            old(console).raw(),
            c,
        ),
{
    console.key_handle(c)
}

/// Sends a Control Sequence Introducer (CSI) to the console: an escape, an
/// opening bracket, then the code's characters, each buffered as an ordinary
/// key.
#[verifier::loop_isolation(false)]
pub fn send_csi(console: &mut Console, code: &str)
    requires
        code.is_ascii(),
        forall|j: int| 0 <= j < code@.len() ==> code@[j] != '\u{8}',
    ensures
        final(console).echo() == old(console).echo(),
        final(console).raw() == old(console).raw(),
        final(console).pending() == old(console).pending() + seq!['\u{1B}', '['] + code@,
{
    let _ = send_key(console, '\x1B');
    let _ = send_key(console, '[');
    let bytes = code.as_bytes();
    let ghost chars = code@;
    let mut i: usize = 0;
    while i < bytes.len()
        invariant
            bytes@ == code.spec_bytes(),
            i <= bytes@.len(),
            bytes@.len() == chars.len(),
            forall|j: int| 0 <= j < chars.len() ==> #[trigger] bytes@[j] == chars[j] as u8,
            forall|j: int| 0 <= j < chars.len() ==> ((#[trigger] chars[j]) as u32) < 0x80,
            console.echo() == old(console).echo(),
            console.raw() == old(console).raw(),
            console.pending() == old(console).pending() + seq!['\u{1B}', '['] + chars.take(
                i as int,
            ),
        decreases bytes@.len() - i,
    {
        let byte = bytes[i];
        let _ = send_key(console, byte as char);
        proof {
            assert(((chars[i as int] as u8) as char) == chars[i as int]);
            assert(crate::console::buffered_key(chars[i as int]) == chars[i as int]);
            assert(console.pending() =~= old(console).pending() + seq!['\u{1B}', '[']
                + chars.take(i + 1));
        }
        i = i + 1;
    }
    proof {
        assert(chars.take(chars.len() as int) =~= chars);
        assert(console.pending() =~= old(console).pending() + seq!['\u{1B}', '['] + chars);
    }
}

} // verus!
