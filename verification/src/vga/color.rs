//! The sixteen VGA text-mode colors and their encodings.
use vstd::prelude::*;

verus! {

/// Number of supported colors.
pub const TOTAL_COLORS: usize = 16;

/// The color an ANSI code names; codes that name none fall back to black.
pub open spec fn ansi_color(code: u8) -> Color {
    if code == 30 {
        Color::Black
    } else if code == 31 {
        Color::Red
    } else if code == 32 {
        Color::Green
    } else if code == 33 {
        Color::Brown
    } else if code == 34 {
        Color::Blue
    } else if code == 35 {
        Color::Magenta
    } else if code == 36 {
        Color::Cyan
    } else if code == 37 {
        Color::LightGray
    } else if code == 90 {
        Color::DarkGray
    } else if code == 91 {
        Color::LightRed
    } else if code == 92 {
        Color::LightGreen
    } else if code == 93 {
        Color::Yellow
    } else if code == 94 {
        Color::LightBlue
    } else if code == 95 {
        Color::Pink
    } else if code == 96 {
        Color::LightCyan
    } else if code == 97 {
        Color::White
    } else {
        Color::Black
    }
}

/// Color.
#[derive(Debug, Clone, Copy, PartialEq, Eq, Structural)]
pub enum Color {
    Black,
    Blue,
    Green,
    Cyan,
    Red,
    Magenta,
    Brown,
    LightGray,
    DarkGray,
    LightBlue,
    LightGreen,
    LightCyan,
    LightRed,
    Pink,
    Yellow,
    White,
}

impl Color {
    /// The color's index in the VGA palette.
    pub open spec fn index(&self) -> u8 {
        match *self {
            Color::Black => 0x0,
            Color::Blue => 0x1,
            Color::Green => 0x2,
            Color::Cyan => 0x3,
            Color::Red => 0x4,
            Color::Magenta => 0x5,
            Color::Brown => 0x6,
            Color::LightGray => 0x7,
            Color::DarkGray => 0x8,
            Color::LightBlue => 0x9,
            Color::LightGreen => 0xA,
            Color::LightCyan => 0xB,
            Color::LightRed => 0xC,
            Color::Pink => 0xD,
            Color::Yellow => 0xE,
            Color::White => 0xF,
        }
    }

    /// The color's ANSI code.
    pub open spec fn ansi_code(&self) -> u8 {
        match *self {
            Color::Black => 30,
            Color::Blue => 34,
            Color::Green => 32,
            Color::Cyan => 36,
            Color::Red => 31,
            Color::Magenta => 35,
            Color::Brown => 33,
            Color::LightGray => 37,
            Color::DarkGray => 90,
            Color::LightBlue => 94,
            Color::LightGreen => 92,
            Color::LightCyan => 96,
            Color::LightRed => 91,
            Color::Pink => 95,
            Color::Yellow => 93,
            Color::White => 97,
        }
    }

    /// The color's name.
    pub open spec fn name(&self) -> Seq<char> {
        match *self {
            Color::Black => "black"@,
            Color::Blue => "blue"@,
            Color::Green => "green"@,
            Color::Cyan => "cyan"@,
            Color::Red => "red"@,
            Color::Magenta => "magenta"@,
            Color::Brown => "brown"@,
            Color::LightGray => "light-gray"@,
            Color::DarkGray => "dark-gray"@,
            Color::LightBlue => "light-blue"@,
            Color::LightGreen => "light-green"@,
            Color::LightCyan => "light-cyan"@,
            Color::LightRed => "light-red"@,
            Color::Pink => "pink"@,
            Color::Yellow => "yellow"@,
            Color::White => "white"@,
        }
    }

    /// The VGA register the color is programmed through.
    pub open spec fn vga_register(&self) -> u8 {
        match *self {
            Color::Black => 0x00,
            Color::Blue => 0x01,
            Color::Green => 0x02,
            Color::Cyan => 0x03,
            Color::Red => 0x04,
            Color::Magenta => 0x05,
            Color::Brown => 0x14,
            Color::LightGray => 0x07,
            Color::DarkGray => 0x38,
            Color::LightBlue => 0x39,
            Color::LightGreen => 0x3A,
            Color::LightCyan => 0x3B,
            Color::LightRed => 0x3C,
            Color::Pink => 0x3D,
            Color::Yellow => 0x3E,
            Color::White => 0x3F,
        }
    }

    /// Creates a new object from an enum index: exactly the indices below
    /// `TOTAL_COLORS` name a color.
    pub fn from_index(idx: u8) -> (color: Result<Color, ()>)
        ensures
            match color {
                Result::Ok(c) => idx < 16 && c.index() == idx,
                Result::Err(()) => idx >= 16,
            },
    {
        match idx {
            0x0 => Ok(Color::Black),
            0x1 => Ok(Color::Blue),
            0x2 => Ok(Color::Green),
            0x3 => Ok(Color::Cyan),
            0x4 => Ok(Color::Red),
            0x5 => Ok(Color::Magenta),
            0x6 => Ok(Color::Brown),
            0x7 => Ok(Color::LightGray),
            0x8 => Ok(Color::DarkGray),
            0x9 => Ok(Color::LightBlue),
            0xA => Ok(Color::LightGreen),
            0xB => Ok(Color::LightCyan),
            0xC => Ok(Color::LightRed),
            0xD => Ok(Color::Pink),
            0xE => Ok(Color::Yellow),
            0xF => Ok(Color::White),
            _ => Err(()),
        }
    }

    /// Creates a new object from an ANSI code: exactly the codes 30 to 37 and
    /// 90 to 97 name a color.
    pub fn from_ansi(code: u8) -> (color: Result<Color, ()>)
        ensures
            match color {
                Result::Ok(c) => c.ansi_code() == code && c == ansi_color(code),
                Result::Err(()) => !(30 <= code <= 37 || 90 <= code <= 97),
            },
    {
        match code {
            30 => Ok(Color::Black),
            31 => Ok(Color::Red),
            32 => Ok(Color::Green),
            33 => Ok(Color::Brown),
            34 => Ok(Color::Blue),
            35 => Ok(Color::Magenta),
            36 => Ok(Color::Cyan),
            37 => Ok(Color::LightGray),
            90 => Ok(Color::DarkGray),
            91 => Ok(Color::LightRed),
            92 => Ok(Color::LightGreen),
            93 => Ok(Color::Yellow),
            94 => Ok(Color::LightBlue),
            95 => Ok(Color::Pink),
            96 => Ok(Color::LightCyan),
            97 => Ok(Color::White),
            _ => Err(()),
        }
    }

    /// Parses a color from its name: exactly the sixteen names above are
    /// accepted.
    pub fn from_str(name: &str) -> (color: Result<Color, ()>)
        ensures
            match color {
                Result::Ok(c) => c.name() == name@,
                Result::Err(()) => forall|c: Color| (#[trigger] c.name()) != name@,
            },
    {
        if crate::text::str_chars_eq(name, "black") {
            Ok(Color::Black)
        } else if crate::text::str_chars_eq(name, "blue") {
            Ok(Color::Blue)
        } else if crate::text::str_chars_eq(name, "green") {
            Ok(Color::Green)
        } else if crate::text::str_chars_eq(name, "cyan") {
            Ok(Color::Cyan)
        } else if crate::text::str_chars_eq(name, "red") {
            Ok(Color::Red)
        } else if crate::text::str_chars_eq(name, "magenta") {
            Ok(Color::Magenta)
        } else if crate::text::str_chars_eq(name, "brown") {
            Ok(Color::Brown)
        } else if crate::text::str_chars_eq(name, "light-gray") {
            Ok(Color::LightGray)
        } else if crate::text::str_chars_eq(name, "dark-gray") {
            Ok(Color::DarkGray)
        } else if crate::text::str_chars_eq(name, "light-blue") {
            Ok(Color::LightBlue)
        } else if crate::text::str_chars_eq(name, "light-green") {
            Ok(Color::LightGreen)
        } else if crate::text::str_chars_eq(name, "light-cyan") {
            Ok(Color::LightCyan)
        } else if crate::text::str_chars_eq(name, "light-red") {
            Ok(Color::LightRed)
        } else if crate::text::str_chars_eq(name, "pink") {
            Ok(Color::Pink)
        } else if crate::text::str_chars_eq(name, "yellow") {
            Ok(Color::Yellow)
        } else if crate::text::str_chars_eq(name, "white") {
            Ok(Color::White)
        } else {
            Err(())
        }
    }

    /// Returns the object as an enum index.
    pub fn as_u8(&self) -> (idx: u8)
        ensures
            idx == self.index(),
    {
        match *self {
            Color::Black => 0x0,
            Color::Blue => 0x1,
            Color::Green => 0x2,
            Color::Cyan => 0x3,
            Color::Red => 0x4,
            Color::Magenta => 0x5,
            Color::Brown => 0x6,
            Color::LightGray => 0x7,
            Color::DarkGray => 0x8,
            Color::LightBlue => 0x9,
            Color::LightGreen => 0xA,
            Color::LightCyan => 0xB,
            Color::LightRed => 0xC,
            Color::Pink => 0xD,
            Color::Yellow => 0xE,
            Color::White => 0xF,
        }
    }

    /// Returns the object as a primitive string.
    pub fn as_str(&self) -> (name: &'static str)
        ensures
            name@ == self.name(),
    {
        match *self {
            Color::Black => "black",
            Color::Blue => "blue",
            Color::Green => "green",
            Color::Cyan => "cyan",
            Color::Red => "red",
            Color::Magenta => "magenta",
            Color::Brown => "brown",
            Color::LightGray => "light-gray",
            Color::DarkGray => "dark-gray",
            Color::LightBlue => "light-blue",
            Color::LightGreen => "light-green",
            Color::LightCyan => "light-cyan",
            Color::LightRed => "light-red",
            Color::Pink => "pink",
            Color::Yellow => "yellow",
            Color::White => "white",
        }
    }

    /// Returns the corresponding ANSI code.
    pub fn to_ansi(&self) -> (code: u8)
        ensures
            code == self.ansi_code(),
    {
        match *self {
            Color::Black => 30,
            Color::Blue => 34,
            Color::Green => 32,
            Color::Cyan => 36,
            Color::Red => 31,
            Color::Magenta => 35,
            Color::Brown => 33,
            Color::LightGray => 37,
            Color::DarkGray => 90,
            Color::LightBlue => 94,
            Color::LightGreen => 92,
            Color::LightCyan => 96,
            Color::LightRed => 91,
            Color::Pink => 95,
            Color::Yellow => 93,
            Color::White => 97,
        }
    }

    /// Returns the associated VGA register.
    pub fn associated_vga_register(&self) -> (reg: u8)
        ensures
            reg == self.vga_register(),
    {
        match *self {
            Color::Black => 0x00,
            Color::Blue => 0x01,
            Color::Green => 0x02,
            Color::Cyan => 0x03,
            Color::Red => 0x04,
            Color::Magenta => 0x05,
            Color::Brown => 0x14,
            Color::LightGray => 0x07,
            Color::DarkGray => 0x38,
            Color::LightBlue => 0x39,
            Color::LightGreen => 0x3A,
            Color::LightCyan => 0x3B,
            Color::LightRed => 0x3C,
            Color::Pink => 0x3D,
            Color::Yellow => 0x3E,
            Color::White => 0x3F,
        }
    }
}

/// The sixteen color names are pairwise distinct.
proof fn lemma_color_names_injective(a: Color, b: Color)
    ensures
        a.name() == b.name() ==> a == b,
{
    reveal_strlit("black");
    reveal_strlit("blue");
    reveal_strlit("green");
    reveal_strlit("cyan");
    reveal_strlit("red");
    reveal_strlit("magenta");
    reveal_strlit("brown");
    reveal_strlit("light-gray");
    reveal_strlit("dark-gray");
    reveal_strlit("light-blue");
    reveal_strlit("light-green");
    reveal_strlit("light-cyan");
    reveal_strlit("light-red");
    reveal_strlit("pink");
    reveal_strlit("yellow");
    reveal_strlit("white");
    if a.name() == b.name() {
        assert(a.name().len() == b.name().len());
        assert(a.name().len() > 0);
        assert(a.name()[0] == b.name()[0]);
        assert(a.name().last() == b.name().last());
    }
}

/// Round trip through the name: parsing a color's own name — any result that
/// `from_str`'s contract admits for `as_str`'s output — answers exactly that
/// color, since the sixteen names are pairwise distinct.
pub proof fn lemma_color_name_round_trip(color: Color, parsed: Result<Color, ()>)
    requires
        match parsed {
            Result::Ok(c) => c.name() == color.name(),
            Result::Err(()) => forall|c: Color| (#[trigger] c.name()) != color.name(),
        },
    ensures
        parsed == Result::<Color, ()>::Ok(color),
{
    match parsed {
        Result::Ok(c) => {
            lemma_color_names_injective(c, color);
        },
        Result::Err(()) => {
            assert(color.name() == color.name());
        },
    }
}

} // verus!
