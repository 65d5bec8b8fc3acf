//! The console buffer, its echo discipline, and the keyboard handler's
//! decisions.
use asm_os::console::{Console, EchoOutput};
use asm_os::input::{
    keyboard_irq_handler, send_csi, send_key, DecodedInput, KeyAction, KeyEventInfo, KeyKind,
    KeyState, ModifierState,
};
use asm_os::io::{stderr, stdin, stdout};

#[test]
fn keys_are_buffered_and_echoed() {
    let mut console = Console::new();
    assert!(console.is_echo_enabled());
    assert!(!console.is_raw_enabled());
    assert_eq!(console.key_handle('a'), EchoOutput::Plain('a'));
    assert_eq!(console.key_handle('\x03'), EchoOutput::Caret('C'));
    assert_eq!(console.key_handle('\x04'), EchoOutput::Caret('D'));
    assert_eq!(console.key_handle('\x1B'), EchoOutput::Caret('['));
    assert_eq!(console.take_char(), Some('a'));
    assert_eq!(console.take_char(), Some('\x03'));
}

#[test]
fn backspace_edits_the_buffer_outside_raw_mode() {
    let mut console = Console::new();
    let _ = console.key_handle('a');
    let _ = console.key_handle('\x03');
    // erasing the control key needs two backspaces on screen
    assert_eq!(console.key_handle('\x08'), EchoOutput::Erase(2));
    // erasing the plain key needs one
    assert_eq!(console.key_handle('\x08'), EchoOutput::Erase(1));
    // nothing left to erase
    assert_eq!(console.key_handle('\x08'), EchoOutput::Silent);
    assert_eq!(console.take_char(), None);
}

#[test]
fn raw_mode_buffers_backspace_and_echo_off_is_silent() {
    let mut console = Console::new();
    console.enable_raw();
    console.disable_echo();
    assert!(console.is_raw_enabled());
    assert!(!console.is_echo_enabled());
    assert_eq!(console.key_handle('\x08'), EchoOutput::Silent);
    assert_eq!(console.take_char(), Some('\x08'));
    console.disable_raw();
    console.enable_echo();
    assert!(!console.is_raw_enabled());
}

#[test]
fn lines_are_taken_whole_on_a_line_break() {
    let mut console = Console::new();
    for key in ['h', 'e', 'y'] {
        let _ = console.key_handle(key);
    }
    // no line break yet: no line
    assert!(console.take_line().is_none());
    let _ = console.key_handle('\n');
    let line = console.take_line().unwrap();
    assert_eq!(line, vec!['h', 'e', 'y', '\n']);
    // the buffer is empty again
    assert!(console.take_line().is_none());
    assert_eq!(console.take_char(), None);
}

#[test]
fn stream_handles_read_from_the_console() {
    let mut console = Console::new();
    let handle = stdin();
    let _ = stdout();
    let _ = stderr();
    // a blocked read leaves echo off and raw mode on while it waits
    assert_eq!(handle.read_char(&mut console), None);
    assert!(!console.is_echo_enabled());
    assert!(console.is_raw_enabled());
    let _ = console.key_handle('q');
    // the successful read restores the console's discipline
    assert_eq!(handle.read_char(&mut console), Some('q'));
    assert!(console.is_echo_enabled());
    assert!(!console.is_raw_enabled());
    let _ = console.key_handle('o');
    let _ = console.key_handle('k');
    let _ = console.key_handle('\r');
    assert_eq!(handle.read_line(&mut console), Some(vec!['o', 'k', '\r']));
}

#[test]
fn modifier_keys_follow_their_events() {
    let mut mods = ModifierState::new();
    mods.update(KeyEventInfo { kind: KeyKind::LShift, state: KeyState::Down });
    assert!(mods.shift);
    mods.update(KeyEventInfo { kind: KeyKind::LAlt, state: KeyState::Down });
    mods.update(KeyEventInfo { kind: KeyKind::RControl, state: KeyState::Down });
    assert!(mods.alt && mods.ctrl && mods.shift);
    mods.update(KeyEventInfo { kind: KeyKind::LShift, state: KeyState::Up });
    assert!(!mods.shift);
}

#[test]
fn handler_decides_arrow_keys_and_salute() {
    let mut mods = ModifierState::new();
    let press = |kind: KeyKind| KeyEventInfo { kind, state: KeyState::Down };

    let action = keyboard_irq_handler(
        &mut mods,
        press(KeyKind::ArrowUp),
        Some(DecodedInput::RawKey(KeyKind::ArrowUp)),
    );
    assert_eq!(action, KeyAction::CursorUp);

    let action = keyboard_irq_handler(
        &mut mods,
        press(KeyKind::Other),
        Some(DecodedInput::Unicode('x')),
    );
    assert_eq!(action, KeyAction::Key('x'));

    // a shifted tab becomes a back-tab
    let _ = keyboard_irq_handler(&mut mods, press(KeyKind::LShift), None);
    let action = keyboard_irq_handler(
        &mut mods,
        press(KeyKind::Other),
        Some(DecodedInput::Unicode('\t')),
    );
    assert_eq!(action, KeyAction::BackTab);
    let _ = keyboard_irq_handler(
        &mut mods,
        KeyEventInfo { kind: KeyKind::LShift, state: KeyState::Up },
        None,
    );

    // ALT and CTRL held with delete reboots
    let _ = keyboard_irq_handler(&mut mods, press(KeyKind::LAlt), None);
    let _ = keyboard_irq_handler(&mut mods, press(KeyKind::LControl), None);
    let action = keyboard_irq_handler(
        &mut mods,
        press(KeyKind::Other),
        Some(DecodedInput::Unicode('\x7F')),
    );
    assert_eq!(action, KeyAction::Reboot);

    // an ignored named key does nothing
    let action = keyboard_irq_handler(
        &mut mods,
        press(KeyKind::Other),
        Some(DecodedInput::RawKey(KeyKind::Other)),
    );
    assert_eq!(action, KeyAction::Nothing);
}

#[test]
fn csi_sequences_reach_the_console_in_order() {
    let mut console = Console::new();
    assert_eq!(send_key(&mut console, 'a'), EchoOutput::Plain('a'));
    send_csi(&mut console, "1A");
    assert_eq!(console.take_char(), Some('a'));
    assert_eq!(console.take_char(), Some('\x1B'));
    assert_eq!(console.take_char(), Some('['));
    assert_eq!(console.take_char(), Some('1'));
    assert_eq!(console.take_char(), Some('A'));
    assert_eq!(console.take_char(), None);
}
