//! The firmware's control flow as a state machine: bring-up, banner,
//! identifier query and report, then the endless LED sequence. Every failure
//! is fatal: the machine halts and stays halted.
use vstd::prelude::*;
use crate::blink::table;
use crate::board::{
    BoardConfig, ID_LEN, ReadCommand, STEP_DELAY_MS, board_config, is_read_id, read_id_command,
    spec_board_config,
};
use crate::report::{banner, banner_text, id_report, id_report_text};
use crate::sequencer::{Outputs, Sequencer, next_cursor, outputs_of};

verus! {

/// Where the firmware is in its run.
#[derive(Clone, Copy, Debug)]
pub enum Stage {
    /// Take the peripherals and program clocks and pins.
    BringUp,
    /// Send the banner.
    Banner,
    /// Read the flash identifier.
    QueryId,
    /// Send the line that reports the identifier.
    Report([u8; ID_LEN]),
    /// Drive the LEDs from the blink table, one row per step.
    Blink(Sequencer),
    /// A step failed; nothing more is done.
    Halted,
}

/// What happened when the last action was performed.
#[derive(Clone, Copy, Debug)]
pub enum Outcome {
    /// The action completed.
    Done,
    /// The identifier read completed with these bytes.
    IdRead([u8; ID_LEN]),
    /// The action failed.
    Failed,
}

/// What the hardware is to do next.
#[derive(Debug)]
pub enum Action {
    /// Take the peripherals and program them with this configuration.
    BringUp(BoardConfig),
    /// Write these bytes on the serial line.
    Send(Vec<u8>),
    /// Issue this QSPI command and receive its bytes.
    ReadId(ReadCommand),
    /// Set the three LED pins, then wait `delay_ms` milliseconds.
    Drive { outputs: Outputs, delay_ms: u32 },
    /// Stop for good.
    Halt,
}

/// The stage that follows `s` once its action ended with `o`.
pub open spec fn next_stage(s: Stage, o: Outcome) -> Stage {
    match (s, o) {
        (Stage::Halted, _) => Stage::Halted,
        (_, Outcome::Failed) => Stage::Halted,
        (Stage::BringUp, Outcome::Done) => Stage::Banner,
        (Stage::Banner, Outcome::Done) => Stage::QueryId,
        (Stage::QueryId, Outcome::IdRead(id)) => Stage::Report(id),
        (Stage::Report(_), Outcome::Done) => Stage::Blink(Sequencer { cursor: 0 }),
        (Stage::Blink(q), Outcome::Done) => Stage::Blink(
            Sequencer { cursor: next_cursor(q.cursor as int) as usize },
        ),
        // An outcome that does not answer the action leaves the hardware in
        // an unknown state.
        _ => Stage::Halted,
    }
}

/// The stage reached from `s` after the outcomes `os`, in order.
pub open spec fn run(s: Stage, os: Seq<Outcome>) -> Stage
    decreases os.len(),
{
    if os.len() == 0 {
        s
    } else {
        next_stage(run(s, os.drop_last()), os.last())
    }
}

/// `a` is the action that stage `s` performs.
pub open spec fn is_action_of(s: Stage, a: Action) -> bool {
    match s {
        Stage::BringUp => a matches Action::BringUp(c) && c == spec_board_config(),
        Stage::Banner => a matches Action::Send(b) && b@ == banner_text(),
        Stage::QueryId => a matches Action::ReadId(c) && is_read_id(c),
        Stage::Report(id) => a matches Action::Send(b) && b@ == id_report_text(id@),
        Stage::Blink(q) => a matches Action::Drive { outputs, delay_ms } && outputs
            == outputs_of(table()[q.cursor as int]) && delay_ms == STEP_DELAY_MS,
        Stage::Halted => a is Halt,
    }
}

impl Stage {
    /// The sequencer, where there is one, points into the table.
    pub open spec fn wf(self) -> bool {
        self matches Stage::Blink(q) ==> q.wf()
    }

    /// The first stage.
    pub fn start() -> (r: Stage)
        ensures
            r == Stage::BringUp,
    {
        Stage::BringUp
    }

    /// The action of this stage.
    pub fn action(&self) -> (r: Action)
        requires
            self.wf(),
        ensures
            is_action_of(*self, r),
    {
        match self {
            Stage::BringUp => Action::BringUp(board_config()),
            Stage::Banner => Action::Send(banner()),
            Stage::QueryId => Action::ReadId(read_id_command()),
            Stage::Report(id) => Action::Send(id_report(id.as_slice())),
            Stage::Blink(q) => Action::Drive { outputs: q.outputs(), delay_ms: STEP_DELAY_MS },
            Stage::Halted => Action::Halt,
        }
    }

    /// The stage that follows this one once its action ended with `o`.
    pub fn next(&self, o: Outcome) -> (r: Stage)
        requires
            self.wf(),
        ensures
            r == next_stage(*self, o),
            r.wf(),
    {
        match (self, o) {
            (Stage::Halted, _) => Stage::Halted,
            (_, Outcome::Failed) => Stage::Halted,
            (Stage::BringUp, Outcome::Done) => Stage::Banner,
            (Stage::Banner, Outcome::Done) => Stage::QueryId,
            (Stage::QueryId, Outcome::IdRead(id)) => Stage::Report(id),
            (Stage::Report(_), Outcome::Done) => Stage::Blink(Sequencer::new()),
            (Stage::Blink(q), Outcome::Done) => {
                let mut q2 = *q;
                q2.step();
                Stage::Blink(q2)
            },
            _ => Stage::Halted,
        }
    }
}

/// A halted machine stays halted, whatever comes after.
pub proof fn lemma_halted_stays(os: Seq<Outcome>)
    ensures
        run(Stage::Halted, os) == Stage::Halted,
    decreases os.len(),
{
    if os.len() > 0 {
        lemma_halted_stays(os.drop_last());
    }
}

/// A failed identifier read halts the machine for good: whatever outcomes
/// follow, it never reaches the LED sequence, and its only action is to halt.
pub proof fn lemma_failed_read_halts(os: Seq<Outcome>)
    ensures
        next_stage(Stage::QueryId, Outcome::Failed) == Stage::Halted,
        run(next_stage(Stage::QueryId, Outcome::Failed), os) == Stage::Halted,
        !(run(next_stage(Stage::QueryId, Outcome::Failed), os) is Blink),
        forall|a: Action|
            is_action_of(run(next_stage(Stage::QueryId, Outcome::Failed), os), a) ==> a is Halt,
{
    lemma_halted_stays(os);
}

} // verus!
