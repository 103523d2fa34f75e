//! Logic of a demonstration firmware for an STM32L475 board: the RGB blink
//! table and its sequencer, the bytes sent on the serial line, the QSPI
//! read-identification command, and the start-up state machine that decides
//! what the board does next.
pub mod blink;
pub mod board;
pub mod firmware;
pub mod sequencer;
pub mod report;
