//! Hardware text-mode cursor styles.
use vstd::prelude::*;

verus! {

/// Number of supported styles.
pub const TOTAL_STYLES: usize = 2;

/// Style.
#[derive(Debug, Clone, Copy, PartialEq, Eq, Structural)]
pub enum Style {
    Underscore,
    Block,
}

impl Style {
    /// The style's index.
    pub open spec fn index(&self) -> u8 {
        match *self {
            Style::Underscore => 0x0,
            Style::Block => 0x1,
        }
    }

    /// The style's name.
    pub open spec fn name(&self) -> Seq<char> {
        match *self {
            Style::Underscore => "underscore"@,
            Style::Block => "block"@,
        }
    }

    /// The scanlines the cursor occupies, as (start, end).
    pub open spec fn bounds(&self) -> (u8, u8) {
        match *self {
            Style::Underscore => (0xDu8, 0xEu8),
            Style::Block => (0x1u8, 0xEu8),
        }
    }

    /// Creates a new object from an enum index: exactly the indices below
    /// `TOTAL_STYLES` name a style.
    pub fn from_index(idx: u8) -> (style: Result<Style, ()>)
        ensures
            match style {
                Result::Ok(s) => idx < 2 && s.index() == idx,
                Result::Err(()) => idx >= 2,
            },
    {
        match idx {
            0x0 => Ok(Style::Underscore),
            0x1 => Ok(Style::Block),
            _ => Err(()),
        }
    }

    /// Parses a style from its name: exactly the two names above are accepted.
    pub fn from_str(name: &str) -> (style: Result<Style, ()>)
        ensures
            match style {
                Result::Ok(s) => s.name() == name@,
                Result::Err(()) => forall|s: Style| (#[trigger] s.name()) != name@,
            },
    {
        if crate::text::str_chars_eq(name, "underscore") {
            Ok(Style::Underscore)
        } else if crate::text::str_chars_eq(name, "block") {
            Ok(Style::Block)
        } else {
            Err(())
        }
    }

    /// Returns the object as an enum index.
    pub fn as_u8(&self) -> (idx: u8)
        ensures
            idx == self.index(),
    {
        match *self {
            Style::Underscore => 0x0,
            Style::Block => 0x1,
        }
    }

    /// Returns the object as a primitive string.
    pub fn as_str(&self) -> (name: &'static str)
        ensures
            name@ == self.name(),
    {
        match *self {
            Style::Underscore => "underscore",
            Style::Block => "block",
        }
    }

    /// Returns the scanline bounds.
    pub fn scanline_bounds(&self) -> (bounds: (u8, u8))
        ensures
            bounds == self.bounds(),
    {
        match *self {
            Style::Underscore => (0xD, 0xE),
            Style::Block => (0x1, 0xE),
        }
    }
}

/// Round trip through the name: parsing a style's own name — any result that
/// `from_str`'s contract admits for `as_str`'s output — answers exactly that
/// style, since the two names are distinct.
pub proof fn lemma_style_name_round_trip(style: Style, parsed: Result<Style, ()>)
    requires
        match parsed {
            Result::Ok(s) => s.name() == style.name(),
            Result::Err(()) => forall|s: Style| (#[trigger] s.name()) != style.name(),
        },
    ensures
        parsed == Result::<Style, ()>::Ok(style),
{
    reveal_strlit("underscore");
    reveal_strlit("block");
    match parsed {
        Result::Ok(s) => {
            if s != style {
                assert(s.name().len() == style.name().len());
            }
        },
        Result::Err(()) => {
            assert(style.name() == style.name());
        },
    }
}

} // verus!
