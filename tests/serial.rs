use pandora::report::{banner, id_report, push_decimal};

#[test]
fn banner_bytes() {
    assert_eq!(banner(), b"Hello, Pandora!\r\n".to_vec());
}

#[test]
fn id_report_of_sample_id() {
    let id: [u8; 3] = [0xEF, 0x60, 0x17];
    assert_eq!(id_report(&id), b"SPI ID:[239, 96, 23]\r\n".to_vec());
}

#[test]
fn id_report_matches_debug_format() {
    let samples: [[u8; 3]; 4] = [[0, 0, 0], [255, 255, 255], [9, 10, 100], [1, 99, 200]];
    for id in samples.iter() {
        let expected = format!("SPI ID:{:?}\r\n", id);
        assert_eq!(id_report(id), expected.into_bytes());
    }
}

#[test]
fn id_report_of_other_lengths() {
    assert_eq!(id_report(&[]), b"SPI ID:[]\r\n".to_vec());
    assert_eq!(id_report(&[5]), b"SPI ID:[5]\r\n".to_vec());
}

#[test]
fn decimal_edges() {
    for n in [0u8, 9, 10, 99, 100, 255] {
        let mut out = b"x".to_vec();
        push_decimal(&mut out, n);
        assert_eq!(out, format!("x{}", n).into_bytes());
    }
}
