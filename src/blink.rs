//! The blink table: eight rows of (red, green, blue) channel states.
use vstd::prelude::*;

verus! {

/// The logical state of one LED channel.
#[derive(Clone, Copy, Debug, PartialEq, Eq, Structural)]
pub enum Level {
    On,
    Off,
}

impl Level {
    /// Whether the channel's output pin is driven logic-high.
    pub open spec fn spec_is_high(self) -> bool {
        self == Level::On
    }

    /// Returns true for `On` (drive the pin high) and false for `Off`.
    pub fn is_high(&self) -> (r: bool)
        ensures
            r == self.spec_is_high(),
    {
        match self {
            Level::On => true,
            Level::Off => false,
        }
    }
}

/// Number of rows in the blink table.
pub const TABLE_LEN: usize = 8;

/// The blink table, one row per step, each row in (red, green, blue) order.
pub open spec fn table() -> Seq<Seq<Level>> {
    seq![
        seq![Level::On, Level::On, Level::On],
        seq![Level::Off, Level::On, Level::On],
        seq![Level::On, Level::Off, Level::On],
        seq![Level::On, Level::On, Level::Off],
        seq![Level::Off, Level::Off, Level::On],
        seq![Level::On, Level::Off, Level::Off],
        seq![Level::Off, Level::On, Level::Off],
        seq![Level::Off, Level::Off, Level::Off],
    ]
}

/// Returns row `c` of the blink table.
pub fn table_row(c: usize) -> (r: [Level; 3])
    requires
        c < TABLE_LEN,
    ensures
        r@ == table()[c as int],
{
    let r = match c {
        0 => [Level::On, Level::On, Level::On],
        1 => [Level::Off, Level::On, Level::On],
        2 => [Level::On, Level::Off, Level::On],
        3 => [Level::On, Level::On, Level::Off],
        4 => [Level::Off, Level::Off, Level::On],
        5 => [Level::On, Level::Off, Level::Off],
        6 => [Level::Off, Level::On, Level::Off],
        _ => [Level::Off, Level::Off, Level::Off],
    };
    assert(r@ =~= table()[c as int]);
    r
}

/// The table has exactly `TABLE_LEN` rows, and every row holds exactly three
/// channel states.
pub proof fn lemma_table_shape()
    ensures
        table().len() == TABLE_LEN,
        forall|c: int| 0 <= c < TABLE_LEN ==> (#[trigger] table()[c]).len() == 3,
{
    assert forall|c: int| 0 <= c < TABLE_LEN implies (#[trigger] table()[c]).len() == 3 by {
        if c == 0 {
        } else if c == 1 {
        } else if c == 2 {
        } else if c == 3 {
        } else if c == 4 {
        } else if c == 5 {
        } else if c == 6 {
        } else {
        }
    }
}

} // verus!
