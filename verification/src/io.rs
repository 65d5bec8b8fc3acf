//! The standard stream handles.
//!
//! A read blocks by halting the CPU between attempts; each handle offers the
//! attempt itself — take a character or a finished line out of the console —
//! and the halt loop around it stays at the hardware edge.
use vstd::prelude::*;

use crate::console::Console;

verus! {

/// The standard input handle.
pub struct StdIn;

impl StdIn {
    /// Attempts to read one character from the console: the oldest buffered
    /// one, if any.  The caller repeats the attempt, halting in between, and
    /// the read discipline travels with it: while the read still blocks, echo
    /// stays off and raw mode on; the attempt that succeeds restores echo and
    /// leaves raw mode.
    pub fn read_char(&self, console: &mut Console) -> (read: Option<char>)
        ensures
            match read {
                Option::Some(c) => {
                    &&& old(console).pending().len() > 0
                    &&& c == old(console).pending().first()
                    &&& final(console).pending() == old(console).pending().drop_first()
                    &&& final(console).echo() == true
                    &&& final(console).raw() == false
                },
                Option::None => {
                    &&& old(console).pending().len() == 0
                    &&& final(console).pending() == old(console).pending()
                    &&& final(console).echo() == false
                    &&& final(console).raw() == true
                },
            },
    {
        console.disable_echo();
        console.enable_raw();
        match console.take_char() {
            Some(read) => {
                console.enable_echo();
                console.disable_raw();
                Some(read)
            },
            None => None,
        }
    }

    /// Attempts to read one line from the console: the whole buffer, once it
    /// ends in a line break.  The caller repeats the attempt, halting in
    /// between.
    pub fn read_line(&self, console: &mut Console) -> (read: Option<Vec<char>>)
        ensures
            match read {
                Option::Some(line) => line@ == old(console).pending() && final(console).pending()
                    == Seq::<char>::empty(),
                Option::None => final(console).pending() == old(console).pending(),
            },
    {
        console.take_line()
    }
}

/// The standard output handle.
pub struct StdOut;

/// The standard error handle.
pub struct StdErr;

/// Returns the standard input handle.
pub fn stdin() -> (handle: StdIn) {
    StdIn
}

/// Returns the standard output handle.
pub fn stdout() -> (handle: StdOut) {
    StdOut
}

/// Returns the standard error handle.
pub fn stderr() -> (handle: StdErr) {
    StdErr
}

} // verus!
