//! The console's line buffer and its echo discipline.
//!
//! Keys decoded by the keyboard driver land in the buffer; blocking reads of
//! the display shell take characters and lines back out.  What the console
//! echoes for each key — the character, a caret form for a control key, or
//! backspaces erasing an echoed key — is decided here and printed by the
//! output collaborator.
use vstd::prelude::*;

verus! {

/// The control characters the console echoes in caret form.
pub const ETX: char = '\x03';

pub const EOT: char = '\x04';

pub const ESC: char = '\x1B';

pub const BS: char = '\x08';

pub const CR: char = '\x0D';

pub const LF: char = '\x0A';

pub const FF: char = '\x0C';

/// The number of bytes a character occupies in UTF-8.
pub open spec fn utf8_len(c: char) -> u8 {
    if (c as u32) < 0x80 {
        1
    } else if (c as u32) < 0x800 {
        2
    } else if (c as u32) < 0x10000 {
        3
    } else {
        4
    }
}

/// Returns the number of bytes a character occupies in UTF-8.
pub fn char_utf8_len(c: char) -> (len: u8)
    ensures
        len == utf8_len(c),
{
    let value = c as u32;
    if value < 0x80 {
        1
    } else if value < 0x800 {
        2
    } else if value < 0x10000 {
        3
    } else {
        4
    }
}

/// The character a key is buffered as: a key below 0xFF is narrowed to its
/// byte, anything else is kept as it is.
pub open spec fn buffered_key(key: char) -> char {
    if (key as u32) < 0xFF {
        ((key as u32) % 256) as u8 as char
    } else {
        key
    }
}

/// What the console echoes for one handled key.
#[derive(Debug, Clone, Copy, PartialEq, Eq, Structural)]
pub enum EchoOutput {
    /// Echo is off, or there was nothing to erase.
    Silent,
    /// That many backspaces, erasing the key just removed from the buffer.
    Erase(u8),
    /// A caret form: a caret followed by this character.
    Caret(char),
    /// The key itself.
    Plain(char),
}

/// What the buffer holds after one handled key: a backspace outside raw mode
/// removes the newest character; any other key is appended, narrowed to a
/// byte when it fits one.
pub open spec fn pending_after_key(pending: Seq<char>, raw: bool, key: char) -> Seq<char> {
    if key == BS && !raw {
        if pending.len() > 0 {
            pending.drop_last()
        } else {
            pending
        }
    } else {
        pending.push(buffered_key(key))
    }
}

/// What one handled key echoes.
pub open spec fn echo_for_key(pending: Seq<char>, echo: bool, raw: bool, key: char) -> EchoOutput {
    if key == BS && !raw {
        if pending.len() > 0 && echo {
            let erased = pending.last();
            if erased == ETX || erased == EOT || erased == ESC {
                EchoOutput::Erase(2)
            } else if (erased as u32) < 0xFF {
                EchoOutput::Erase(1)
            } else {
                EchoOutput::Erase(utf8_len(erased))
            }
        } else {
            EchoOutput::Silent
        }
    } else if echo {
        if buffered_key(key) == ETX {
            EchoOutput::Caret('C')
        } else if buffered_key(key) == EOT {
            EchoOutput::Caret('D')
        } else if buffered_key(key) == ESC {
            EchoOutput::Caret('[')
        } else {
            EchoOutput::Plain(buffered_key(key))
        }
    } else {
        EchoOutput::Silent
    }
}

/// Console: the line buffer together with the echo and raw flags.
pub struct Console {
    buffer: Vec<char>,
    echo_enabled: bool,
    raw_enabled: bool,
}

impl Console {
    /// The buffered characters, oldest first.
    pub closed spec fn pending(&self) -> Seq<char> {
        self.buffer@
    }

    /// Whether handled keys are echoed.
    pub closed spec fn echo(&self) -> bool {
        self.echo_enabled
    }

    /// Whether raw mode is on: backspace is buffered like any key instead of
    /// editing the buffer.
    pub closed spec fn raw(&self) -> bool {
        self.raw_enabled
    }

    /// Creates an empty console: echo on, raw off.
    pub fn new() -> (console: Console)
        ensures
            console.pending() == Seq::<char>::empty(),
            console.echo() == true,
            console.raw() == false,
    {
        Console { buffer: Vec::new(), echo_enabled: true, raw_enabled: false }
    }

    /// Whether handled keys are echoed.
    pub fn is_echo_enabled(&self) -> (enabled: bool)
        ensures
            enabled == self.echo(),
    {
        self.echo_enabled
    }

    /// Turns echo on.
    pub fn enable_echo(&mut self)
        ensures
            final(self).echo() == true,
            final(self).raw() == old(self).raw(),
            final(self).pending() == old(self).pending(),
    {
        self.echo_enabled = true;
    }

    /// Turns echo off.
    pub fn disable_echo(&mut self)
        ensures
            final(self).echo() == false,
            final(self).raw() == old(self).raw(),
            final(self).pending() == old(self).pending(),
    {
        self.echo_enabled = false;
    }

    /// Whether raw mode is on.
    pub fn is_raw_enabled(&self) -> (enabled: bool)
        ensures
            enabled == self.raw(),
    {
        self.raw_enabled
    }

    /// Turns raw mode on.
    pub fn enable_raw(&mut self)
        ensures
            final(self).raw() == true,
            final(self).echo() == old(self).echo(),
            final(self).pending() == old(self).pending(),
    {
        self.raw_enabled = true;
    }

    /// Turns raw mode off.
    pub fn disable_raw(&mut self)
        ensures
            final(self).raw() == false,
            final(self).echo() == old(self).echo(),
            final(self).pending() == old(self).pending(),
    {
        self.raw_enabled = false;
    }

    /// Handles one decoded key.  A backspace outside raw mode removes the
    /// newest buffered character and echoes enough backspaces to erase what
    /// that character had echoed; any other key is buffered — narrowed to a
    /// byte when it fits one — and echoed plainly, or in caret form for the
    /// control keys.
    pub fn key_handle(&mut self, key: char) -> (echoed: EchoOutput)
        ensures
            final(self).echo() == old(self).echo(),
            final(self).raw() == old(self).raw(),
            final(self).pending() == pending_after_key(
                old(self).pending(),
                old(self).raw(),
                key,
            ),
            echoed == echo_for_key(old(self).pending(), old(self).echo(), old(self).raw(), key),
    {
        if key == BS && !self.raw_enabled {
            match self.buffer.pop() {
                Some(erased) => {
                    if self.echo_enabled {
                        let width = if erased == ETX || erased == EOT || erased == ESC {
                            2
                        } else if (erased as u32) < 0xFF {
                            1
                        } else {
                            char_utf8_len(erased)
                        };
                        EchoOutput::Erase(width)
                    } else {
                        EchoOutput::Silent
                    }
                },
                None => EchoOutput::Silent,
            }
        } else {
            let value = key as u32;
            let key = if value < 0xFF {
                (value as u8) as char
            } else {
                key
            };
            self.buffer.push(key);
            if self.echo_enabled {
                if key == ETX {
                    EchoOutput::Caret('C')
                } else if key == EOT {
                    EchoOutput::Caret('D')
                } else if key == ESC {
                    EchoOutput::Caret('[')
                } else {
                    EchoOutput::Plain(key)
                }
            } else {
                EchoOutput::Silent
            }
        }
    }

    /// Takes the oldest buffered character, if any: the step a blocking
    /// character read repeats, halting in between, until a key arrives.
    pub fn take_char(&mut self) -> (taken: Option<char>)
        ensures
            match taken {
                Option::Some(c) => old(self).pending().len() > 0 && c == old(
                    self,
                ).pending().first() && final(self).pending() == old(self).pending().drop_first(),
                Option::None => old(self).pending().len() == 0 && final(self).pending() == old(
                    self,
                ).pending(),
            },
            final(self).echo() == old(self).echo(),
            final(self).raw() == old(self).raw(),
    {
        if self.buffer.len() > 0 {
            Some(self.buffer.remove(0))
        } else {
            None
        }
    }

    /// Takes the whole buffer as one line when it ends in a line break —
    /// carriage return, line feed or form feed — leaving the buffer empty:
    /// the step a blocking line read repeats, halting in between.
    pub fn take_line(&mut self) -> (line: Option<Vec<char>>)
        ensures
            final(self).echo() == old(self).echo(),
            final(self).raw() == old(self).raw(),
            match line {
                Option::Some(taken) => {
                    &&& old(self).pending().len() > 0
                    &&& (old(self).pending().last() == CR || old(self).pending().last() == LF
                        || old(self).pending().last() == FF)
                    &&& taken@ == old(self).pending()
                    &&& final(self).pending() == Seq::<char>::empty()
                },
                Option::None => {
                    &&& final(self).pending() == old(self).pending()
                    &&& (old(self).pending().len() == 0 || !(old(self).pending().last() == CR
                        || old(self).pending().last() == LF || old(self).pending().last() == FF))
                },
            },
    {
        if self.buffer.len() == 0 {
            return None;
        }
        let last = self.buffer[self.buffer.len() - 1];
        if last == CR || last == LF || last == FF {
            let mut taken: Vec<char> = Vec::new();
            core::mem::swap(&mut taken, &mut self.buffer);
            Some(taken)
        } else {
            None
        }
    }
}

} // verus!
