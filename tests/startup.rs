use pandora::board::{board_config, read_id_command, BusMode};
use pandora::firmware::{Action, Outcome, Stage};
use pandora::sequencer::Outputs;

fn sent(a: Action) -> Vec<u8> {
    match a {
        Action::Send(b) => b,
        other => panic!("expected a send, got {:?}", other),
    }
}

#[test]
fn read_id_command_fields() {
    let c = read_id_command();
    assert_eq!(c.instruction, Some((0x9f, BusMode::SingleChannel)));
    assert_eq!(c.address, None);
    assert!(c.alternative_bytes.is_none());
    assert_eq!(c.dummy_cycles, 0);
    assert_eq!(c.data_mode, BusMode::SingleChannel);
    assert_eq!(c.receive_length, 3);
    assert!(!c.double_data_rate);
}

#[test]
fn board_config_values() {
    let c = board_config();
    assert_eq!(c.sysclk_hz, 80_000_000);
    assert_eq!(c.pclk1_hz, 80_000_000);
    assert_eq!(c.pclk2_hz, 80_000_000);
    assert_eq!(c.baud_rate, 115_200);
    assert_eq!(c.qspi_prescaler, 201);
    assert_eq!(c.step_delay_ms, 500);
}

#[test]
fn banner_is_first_output() {
    let s = Stage::start();
    assert!(matches!(s.action(), Action::BringUp(_)));
    let s = s.next(Outcome::Done);
    assert_eq!(sent(s.action()), b"Hello, Pandora!\r\n".to_vec());
}

#[test]
fn full_startup_then_blinking() {
    let mut s = Stage::start();
    s = s.next(Outcome::Done);
    s = s.next(Outcome::Done);
    match s.action() {
        Action::ReadId(c) => assert_eq!(c.instruction, Some((0x9f, BusMode::SingleChannel))),
        other => panic!("expected the identifier read, got {:?}", other),
    }
    s = s.next(Outcome::IdRead([0xEF, 0x60, 0x17]));
    assert_eq!(sent(s.action()), b"SPI ID:[239, 96, 23]\r\n".to_vec());
    s = s.next(Outcome::Done);
    match s.action() {
        Action::Drive { outputs, delay_ms } => {
            assert_eq!(outputs, Outputs { red: true, green: true, blue: true });
            assert_eq!(delay_ms, 500);
        }
        other => panic!("expected a drive, got {:?}", other),
    }
    for _ in 0..7 {
        s = s.next(Outcome::Done);
    }
    match s.action() {
        Action::Drive { outputs, .. } => {
            assert_eq!(outputs, Outputs { red: false, green: false, blue: false })
        }
        other => panic!("expected a drive, got {:?}", other),
    }
    s = s.next(Outcome::Done);
    match s {
        Stage::Blink(q) => assert_eq!(q.cursor, 0),
        other => panic!("expected blinking, got {:?}", other),
    }
}

#[test]
fn failed_read_halts_before_blinking() {
    let mut s = Stage::start();
    s = s.next(Outcome::Done);
    s = s.next(Outcome::Done);
    s = s.next(Outcome::Failed);
    assert!(matches!(s, Stage::Halted));
    assert!(matches!(s.action(), Action::Halt));
    for _ in 0..20 {
        s = s.next(Outcome::Done);
        assert!(matches!(s, Stage::Halted));
        assert!(matches!(s.action(), Action::Halt));
    }
    s = s.next(Outcome::IdRead([1, 2, 3]));
    assert!(matches!(s, Stage::Halted));
}

#[test]
fn any_failure_halts() {
    let mut s = Stage::start();
    assert!(matches!(s.next(Outcome::Failed), Stage::Halted));
    s = s.next(Outcome::Done);
    assert!(matches!(s.next(Outcome::Failed), Stage::Halted));
    s = s.next(Outcome::Done);
    s = s.next(Outcome::IdRead([0, 0, 0]));
    assert!(matches!(s.next(Outcome::Failed), Stage::Halted));
    s = s.next(Outcome::Done);
    assert!(matches!(s, Stage::Blink(_)));
    assert!(matches!(s.next(Outcome::Failed), Stage::Halted));
}

#[test]
fn read_without_identifier_halts() {
    let mut s = Stage::start();
    s = s.next(Outcome::Done);
    s = s.next(Outcome::Done);
    assert!(matches!(s.next(Outcome::Done), Stage::Halted));
}
