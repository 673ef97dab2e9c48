use uhd::double::Double;
use uhd::receiver::error::{ReceiveError, ReceiveErrorKind};
use uhd::receiver::metadata::ReceiveMetadata;
use uhd::time_spec::{NativeTime, TimeSpec};
use uhd::transmitter::metadata::TransmitMetadata;

#[test]
fn default_rx_metadata() {
    let metadata = ReceiveMetadata::default();
    assert_eq!(None, metadata.time_spec());
    assert_eq!(false, metadata.start_of_burst());
    assert_eq!(false, metadata.end_of_burst());
    assert_eq!(false, metadata.out_of_sequence());
    assert_eq!(false, metadata.more_fragments());
    assert_eq!(0, metadata.fragment_offset());
    assert!(metadata.last_error().is_none());
}

#[test]
fn default_tx_metadata() {
    let metadata = TransmitMetadata::default();
    assert_eq!(None, metadata.time_spec());
    assert_eq!(false, metadata.start_of_burst());
    assert_eq!(false, metadata.end_of_burst());
}

#[test]
fn new_metadata_hold_no_samples() {
    assert_eq!(0, ReceiveMetadata::new().samples());
    assert_eq!(0, ReceiveMetadata::default().samples());
    assert_eq!(0, TransmitMetadata::new().samples());
    assert_eq!(0, TransmitMetadata::default().samples());
    assert_eq!(0, ReceiveMetadata::new().error_code());
}

fn time(seconds: i64, fraction: f64) -> NativeTime {
    NativeTime { full_secs: seconds as libc::time_t, frac_secs: Double::from_bits(fraction.to_bits()) }
}

fn with_code(code: u32, out_of_sequence: bool, text: Option<&str>) -> ReceiveMetadata {
    ReceiveMetadata::from_native(
        false,
        time(0, 0.0),
        false,
        false,
        false,
        0,
        out_of_sequence,
        code,
        text.map(|t| t.to_string()),
    )
}

#[test]
fn rx_metadata_from_native() {
    let mut metadata = ReceiveMetadata::from_native(
        true,
        time(17, 0.75),
        true,
        false,
        true,
        96,
        false,
        0,
        None,
    );
    assert_eq!(
        Some(TimeSpec { seconds: 17, fraction: Double::from_bits(0.75f64.to_bits()) }),
        metadata.time_spec()
    );
    assert!(metadata.start_of_burst());
    assert!(!metadata.end_of_burst());
    assert!(metadata.more_fragments());
    assert_eq!(96, metadata.fragment_offset());
    assert!(!metadata.out_of_sequence());
    assert_eq!(0, metadata.error_code());
    assert!(metadata.last_error().is_none());
    assert_eq!(0, metadata.samples());
    metadata.set_samples(363);
    assert_eq!(363, metadata.samples());
    assert!(metadata.start_of_burst());
    assert_eq!(96, metadata.fragment_offset());
}

#[test]
fn time_spec_is_gated() {
    let metadata = ReceiveMetadata::from_native(
        false,
        time(17, 0.75),
        false,
        false,
        false,
        0,
        false,
        0,
        None,
    );
    assert_eq!(None, metadata.time_spec());
    let metadata = TransmitMetadata::from_native(false, time(17, 0.75), true, true);
    assert_eq!(None, metadata.time_spec());
    assert!(metadata.start_of_burst());
    assert!(metadata.end_of_burst());
    let metadata = TransmitMetadata::from_native(true, time(3, 0.5), false, true);
    assert_eq!(
        Some(TimeSpec { seconds: 3, fraction: Double::from_bits(0.5f64.to_bits()) }),
        metadata.time_spec()
    );
    assert!(!metadata.start_of_burst());
}

#[test]
fn tx_metadata_samples() {
    let mut metadata = TransmitMetadata::from_native(true, time(1, 0.0), true, false);
    metadata.set_samples(2048);
    assert_eq!(2048, metadata.samples());
    assert!(metadata.start_of_burst());
    assert!(!metadata.end_of_burst());
    assert!(metadata.time_spec().is_some());
}

#[test]
fn each_code_gives_its_kind() {
    let table = [
        (0x1u32, ReceiveErrorKind::Timeout),
        (0x2, ReceiveErrorKind::LateCommand),
        (0x4, ReceiveErrorKind::BrokenChain),
        (0x8, ReceiveErrorKind::Overflow),
        (0xC, ReceiveErrorKind::Alignment),
        (0xF, ReceiveErrorKind::BadPacket),
        (0x3, ReceiveErrorKind::Other),
        (0x10, ReceiveErrorKind::Other),
        (u32::MAX, ReceiveErrorKind::Other),
    ];
    for (code, kind) in table {
        let error = with_code(code, false, None).last_error().unwrap();
        assert_eq!(kind, error.kind(), "code {}", code);
        assert_eq!(None, error.message());
    }
}

#[test]
fn overflow_out_of_sequence() {
    let error = with_code(0x8, true, None).last_error().unwrap();
    assert_eq!(ReceiveErrorKind::OutOfSequence, error.kind());
    let error = with_code(0x8, false, None).last_error().unwrap();
    assert_eq!(ReceiveErrorKind::Overflow, error.kind());
}

#[test]
fn out_of_sequence_changes_overflow_only() {
    assert!(with_code(0x0, true, None).last_error().is_none());
    for (code, kind) in [
        (0x1u32, ReceiveErrorKind::Timeout),
        (0x2, ReceiveErrorKind::LateCommand),
        (0x4, ReceiveErrorKind::BrokenChain),
        (0xC, ReceiveErrorKind::Alignment),
        (0xF, ReceiveErrorKind::BadPacket),
        (0x9, ReceiveErrorKind::Other),
    ] {
        assert_eq!(kind, with_code(code, true, None).last_error().unwrap().kind());
    }
}

#[test]
fn last_error_carries_the_text() {
    let error = with_code(0x1, false, Some("ERROR_CODE_TIMEOUT")).last_error().unwrap();
    assert_eq!(ReceiveErrorKind::Timeout, error.kind());
    assert_eq!(Some("ERROR_CODE_TIMEOUT"), error.message());
    // The text of metadata without an error is not an error.
    assert!(with_code(0x0, false, Some("ERROR_CODE_NONE")).last_error().is_none());
}

#[test]
fn receive_error_in_words() {
    let table = [
        (ReceiveErrorKind::Timeout, "No packet received"),
        (ReceiveErrorKind::LateCommand, "Command timestamp was in the past"),
        (ReceiveErrorKind::BrokenChain, "Expected another stream command"),
        (ReceiveErrorKind::Overflow, "An internal receive buffer has been filled"),
        (ReceiveErrorKind::OutOfSequence, "Sequence error"),
        (ReceiveErrorKind::Alignment, "Multi-channel alignment failed"),
        (ReceiveErrorKind::BadPacket, "A packet could not be parsed"),
        (ReceiveErrorKind::Other, "Other error"),
    ];
    for (kind, text) in table {
        assert_eq!(text, kind.description());
        assert_eq!(text, ReceiveError { kind, message: None }.to_string());
        assert_eq!(text, ReceiveError { kind, message: Some(String::new()) }.to_string());
        assert_eq!(
            format!("{}: details", text),
            ReceiveError { kind, message: Some("details".to_string()) }.to_string()
        );
    }
}

#[test]
fn receive_error_getters() {
    let error = ReceiveError { kind: ReceiveErrorKind::BadPacket, message: Some("x".to_string()) };
    assert_eq!(ReceiveErrorKind::BadPacket, error.kind());
    assert_eq!(Some("x"), error.message());
    let error = ReceiveError { kind: ReceiveErrorKind::Other, message: None };
    assert_eq!(ReceiveErrorKind::Other, error.kind());
    assert_eq!(None, error.message());
}
