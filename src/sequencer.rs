//! The LED sequencer: a cursor into the blink table that moves one row per
//! step and wraps from the last row back to the first.
use vstd::prelude::*;
use crate::blink::{Level, TABLE_LEN, table, table_row};

verus! {

/// The cursor that follows `c`.
pub open spec fn next_cursor(c: int) -> int {
    (c + 1) % (TABLE_LEN as int)
}

/// The cursor reached from `c` after `n` steps.
pub open spec fn cursor_after(c: int, n: nat) -> int
    decreases n,
{
    if n == 0 {
        c
    } else {
        next_cursor(cursor_after(c, (n - 1) as nat))
    }
}

/// Returns the cursor that follows `c`: one more, and zero after the last row.
pub fn advance(c: usize) -> (r: usize)
    requires
        c < TABLE_LEN,
    ensures
        r == next_cursor(c as int),
        r < TABLE_LEN,
{
    if c + 1 == TABLE_LEN {
        0
    } else {
        c + 1
    }
}

/// The pin levels for one step, in (red, green, blue) order.
#[derive(Clone, Copy, Debug, PartialEq, Eq, Structural)]
pub struct Outputs {
    pub red: bool,
    pub green: bool,
    pub blue: bool,
}

/// The pin levels that a table row asks for: high where the channel is on.
pub open spec fn outputs_of(row: Seq<Level>) -> Outputs {
    Outputs {
        red: row[0].spec_is_high(),
        green: row[1].spec_is_high(),
        blue: row[2].spec_is_high(),
    }
}

/// Owns the position in the blink table.
#[derive(Clone, Copy, Debug, PartialEq, Eq, Structural)]
pub struct Sequencer {
    pub cursor: usize,
}

impl Sequencer {
    /// The cursor points at a row of the table.
    pub open spec fn wf(&self) -> bool {
        self.cursor < TABLE_LEN
    }

    /// A sequencer at the first row.
    pub fn new() -> (r: Sequencer)
        ensures
            r.wf(),
            r.cursor == 0,
    {
        Sequencer { cursor: 0 }
    }

    /// The pin levels for the current row, without moving.
    pub fn outputs(&self) -> (r: Outputs)
        requires
            self.wf(),
        ensures
            r == outputs_of(table()[self.cursor as int]),
    {
        let row = table_row(self.cursor);
        Outputs { red: row[0].is_high(), green: row[1].is_high(), blue: row[2].is_high() }
    }

    /// Returns the pin levels for the current row and moves to the next row.
    pub fn step(&mut self) -> (r: Outputs)
        requires
            old(self).wf(),
        ensures
            final(self).wf(),
            r == outputs_of(table()[old(self).cursor as int]),
            final(self).cursor == next_cursor(old(self).cursor as int),
    {
        let r = self.outputs();
        self.cursor = advance(self.cursor);
        r
    }
}

/// Stepping `TABLE_LEN` times from any row comes back to that row; in
/// particular a full cycle from the first row ends at the first row.
pub proof fn lemma_full_cycle(c: int)
    requires
        0 <= c < TABLE_LEN,
    ensures
        cursor_after(c, TABLE_LEN as nat) == c,
{
    lemma_cursor_after(c, TABLE_LEN as nat);
    assert((c + 8) % 8 == c);
}

/// After `n` steps from `c` the cursor is `(c + n) mod TABLE_LEN`.
pub proof fn lemma_cursor_after(c: int, n: nat)
    requires
        0 <= c < TABLE_LEN,
    ensures
        cursor_after(c, n) == (c + n) % (TABLE_LEN as int),
    decreases n,
{
    if n > 0 {
        lemma_cursor_after(c, (n - 1) as nat);
        assert(((c + n - 1) % 8 + 1) % 8 == (c + n) % 8) by (nonlinear_arith)
            requires c + n >= 1;
    }
}

} // verus!
