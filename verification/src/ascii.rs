//! ASCII control bytes the console and display interpret.
use vstd::prelude::*;

verus! {

pub const NULL: u8 = 0x00;

pub const ETX: u8 = 0x03;

pub const EOT: u8 = 0x04;

pub const BACKSPACE: u8 = 0x08;

pub const HTAB: u8 = 0x09;

pub const NEWLINE: u8 = 0x0A;

pub const VTAB: u8 = 0x0B;

pub const FORM_FEED: u8 = 0x0C;

pub const CARRIAGE_RETURN: u8 = 0x0D;

pub const ESC: u8 = 0x1B;

pub const SPACE: u8 = 0x20;

pub const DEL: u8 = 0x7F;

} // verus!
