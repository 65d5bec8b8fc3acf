//! Keyboard layouts and the layout configuration.
use vstd::prelude::*;

verus! {

/// The layout selected at boot.
pub const DEFAULT_LAYOUT: Layout = Layout::QWERTY;

/// Layout.
#[derive(Debug, Clone, Copy, PartialEq, Eq, Structural)]
pub enum Layout {
    AZERTY,
    Dvorak,
    QWERTY,
}

impl Layout {
    /// The layout's index.
    pub open spec fn index(&self) -> u8 {
        match *self {
            Layout::AZERTY => 0x0,
            Layout::Dvorak => 0x1,
            Layout::QWERTY => 0x2,
        }
    }

    /// The layout's name.
    pub open spec fn name(&self) -> Seq<char> {
        match *self {
            Layout::AZERTY => "azerty"@,
            Layout::Dvorak => "dvorak"@,
            Layout::QWERTY => "qwerty"@,
        }
    }

    /// Creates a new object from an enum index: exactly the indices below
    /// three name a layout.
    pub fn from_index(idx: u8) -> (layout: Result<Layout, ()>)
        ensures
            match layout {
                Result::Ok(l) => idx < 3 && l.index() == idx,
                Result::Err(()) => idx >= 3,
            },
    {
        match idx {
            0x0 => Ok(Layout::AZERTY),
            0x1 => Ok(Layout::Dvorak),
            0x2 => Ok(Layout::QWERTY),
            _ => Err(()),
        }
    }

    /// Parses a layout from its name: exactly the three names above are
    /// accepted.
    pub fn from_str(name: &str) -> (layout: Result<Layout, ()>)
        ensures
            match layout {
                Result::Ok(l) => l.name() == name@,
                Result::Err(()) => forall|l: Layout| (#[trigger] l.name()) != name@,
            },
    {
        if crate::text::str_chars_eq(name, "azerty") {
            Ok(Layout::AZERTY)
        } else if crate::text::str_chars_eq(name, "dvorak") {
            Ok(Layout::Dvorak)
        } else if crate::text::str_chars_eq(name, "qwerty") {
            Ok(Layout::QWERTY)
        } else {
            Err(())
        }
    }

    /// Returns the object as an enum index.
    pub fn as_u8(&self) -> (idx: u8)
        ensures
            idx == self.index(),
    {
        match *self {
            Layout::AZERTY => 0x0,
            Layout::Dvorak => 0x1,
            Layout::QWERTY => 0x2,
        }
    }

    /// Returns the object as a primitive string.
    pub fn as_str(&self) -> (name: &'static str)
        ensures
            name@ == self.name(),
    {
        match *self {
            Layout::AZERTY => "azerty",
            Layout::Dvorak => "dvorak",
            Layout::QWERTY => "qwerty",
        }
    }
}

/// The keyboard configuration the kernel keeps: which layout decodes
/// scancodes.  The decode tables themselves live in the keyboard driver, an
/// external collaborator.
pub struct KbdConfig {
    layout: Layout,
}

impl KbdConfig {
    /// The selected layout.
    pub closed spec fn selected(&self) -> Layout {
        self.layout
    }

    /// The boot-time configuration.
    pub fn new() -> (config: KbdConfig)
        ensures
            config.selected() == DEFAULT_LAYOUT,
    {
        KbdConfig { layout: DEFAULT_LAYOUT }
    }
}

/// Returns the layout.
pub fn get_layout(config: &KbdConfig) -> (layout: Layout)
    ensures
        layout == config.selected(),
{
    config.layout
}

/// Sets the layout.
pub fn set_layout(config: &mut KbdConfig, lyt: Layout)
    ensures
        final(config).selected() == lyt,
{
    config.layout = lyt;
}

/// Resets the layout.
pub fn reset_layout(config: &mut KbdConfig)
    ensures
        final(config).selected() == DEFAULT_LAYOUT,
{
    config.layout = DEFAULT_LAYOUT;
}

/// Round trip through the name: parsing a layout's own name — any result that
/// `from_str`'s contract admits for `as_str`'s output — answers exactly that
/// layout, since the three names are pairwise distinct.
pub proof fn lemma_layout_name_round_trip(layout: Layout, parsed: Result<Layout, ()>)
    requires
        match parsed {
            Result::Ok(l) => l.name() == layout.name(),
            Result::Err(()) => forall|l: Layout| (#[trigger] l.name()) != layout.name(),
        },
    ensures
        parsed == Result::<Layout, ()>::Ok(layout),
{
    reveal_strlit("azerty");
    reveal_strlit("dvorak");
    reveal_strlit("qwerty");
    match parsed {
        Result::Ok(l) => {
            if l != layout {
                assert(l.name()[0] == layout.name()[0]);
            }
        },
        Result::Err(()) => {
            assert(layout.name() == layout.name());
        },
    }
}

} // verus!
