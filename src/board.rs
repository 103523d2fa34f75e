//! The board's compiled-in configuration and the QSPI command that reads the
//! flash identifier.
use vstd::prelude::*;

verus! {

/// Number of bytes in the flash identifier.
pub const ID_LEN: usize = 3;

/// The flash "read identification" opcode.
pub const READ_ID_OPCODE: u8 = 0x9f;

/// The target frequency of the system clock and of both peripheral buses.
pub const CLOCK_HZ: u32 = 80_000_000;

/// The serial line's baud rate.
pub const BAUD_RATE: u32 = 115_200;

/// The divider applied to the QSPI peripheral's clock.
pub const QSPI_PRESCALER: u8 = 201;

/// The pause between two steps of the LED sequencer, in milliseconds.
pub const STEP_DELAY_MS: u32 = 500;

/// How many data lines a phase of a QSPI command uses.
#[derive(Clone, Copy, Debug, PartialEq, Eq, Structural)]
pub enum BusMode {
    SingleChannel,
    DualChannel,
    QuadChannel,
}

/// A QSPI read command: instruction, address, alternate bytes, dummy cycles,
/// then a data phase that receives `receive_length` bytes.
#[derive(Debug)]
pub struct ReadCommand {
    pub instruction: Option<(u8, BusMode)>,
    pub address: Option<(u32, BusMode)>,
    pub alternative_bytes: Option<(Vec<u8>, BusMode)>,
    pub dummy_cycles: u8,
    pub data_mode: BusMode,
    pub receive_length: u32,
    pub double_data_rate: bool,
}

/// `c` is the identification read: opcode 0x9F on one line, no address, no
/// alternate bytes, no dummy cycles, `ID_LEN` bytes received on one line at
/// single data rate.
pub open spec fn is_read_id(c: ReadCommand) -> bool {
    &&& c.instruction == Some((READ_ID_OPCODE, BusMode::SingleChannel))
    &&& c.address is None
    &&& c.alternative_bytes is None
    &&& c.dummy_cycles == 0
    &&& c.data_mode == BusMode::SingleChannel
    &&& c.receive_length == ID_LEN
    &&& !c.double_data_rate
}

/// The command that reads the flash identifier.
pub fn read_id_command() -> (r: ReadCommand)
    ensures
        is_read_id(r),
{
    ReadCommand {
        instruction: Some((READ_ID_OPCODE, BusMode::SingleChannel)),
        address: None,
        alternative_bytes: None,
        dummy_cycles: 0,
        data_mode: BusMode::SingleChannel,
        receive_length: ID_LEN as u32,
        double_data_rate: false,
    }
}

/// The settings that bring-up programs into the hardware.
#[derive(Clone, Copy, Debug, PartialEq, Eq, Structural)]
pub struct BoardConfig {
    pub sysclk_hz: u32,
    pub pclk1_hz: u32,
    pub pclk2_hz: u32,
    pub baud_rate: u32,
    pub qspi_prescaler: u8,
    pub step_delay_ms: u32,
}

/// The board's fixed settings.
pub open spec fn spec_board_config() -> BoardConfig {
    BoardConfig {
        sysclk_hz: CLOCK_HZ,
        pclk1_hz: CLOCK_HZ,
        pclk2_hz: CLOCK_HZ,
        baud_rate: BAUD_RATE,
        qspi_prescaler: QSPI_PRESCALER,
        step_delay_ms: STEP_DELAY_MS,
    }
}

/// Returns the board's fixed settings.
pub fn board_config() -> (r: BoardConfig)
    ensures
        r == spec_board_config(),
{
    BoardConfig {
        sysclk_hz: CLOCK_HZ,
        pclk1_hz: CLOCK_HZ,
        pclk2_hz: CLOCK_HZ,
        baud_rate: BAUD_RATE,
        qspi_prescaler: QSPI_PRESCALER,
        step_delay_ms: STEP_DELAY_MS,
    }
}

} // verus!
