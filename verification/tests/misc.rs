use bridger::error::{decimal_text, ArrayBytesError, BridgeEthereumError, IntErrorKind};
use bridger::keys::keys_report;
use bridger::message::{
    DarwiniaEthereumMessage, EthereumScanMessage, Extrinsic, ToDarwiniaLinkedMessage, ToExtrinsicsMessage,
    ToGuardMessage, ToRelayMessage,
};

#[test]
fn report_of_keys() {
    assert_eq!(
        keys_report("0xabc", "[0x1, 0x2]"),
        "sudo key: 0xabc\ntechnical committee members: [0x1, 0x2]"
    );
}

#[test]
fn error_messages() {
    assert_eq!(BridgeEthereumError::Other("x".to_string()).message(), "Other error: x");
    assert_eq!(BridgeEthereumError::ArrayBytes("y".to_string()).message(), "Array bytes error: y");
}

fn model(error: &array_bytes::Error) -> ArrayBytesError {
    match error {
        array_bytes::Error::ParseIntError(e) => ArrayBytesError::ParseIntError(match e.kind() {
            std::num::IntErrorKind::Empty => IntErrorKind::Empty,
            std::num::IntErrorKind::InvalidDigit => IntErrorKind::InvalidDigit,
            std::num::IntErrorKind::PosOverflow => IntErrorKind::PosOverflow,
            std::num::IntErrorKind::NegOverflow => IntErrorKind::NegOverflow,
            std::num::IntErrorKind::Zero => IntErrorKind::Zero,
            _ => unreachable!(),
        }),
        array_bytes::Error::Utf8Error(e) => ArrayBytesError::Utf8Error {
            valid_up_to: e.valid_up_to(),
            error_len: e.error_len().map(|n| n as u8),
        },
        array_bytes::Error::InvalidLength => ArrayBytesError::InvalidLength,
        array_bytes::Error::InvalidCharacter { character, index } => {
            ArrayBytesError::InvalidCharacter { character: *character, index: *index }
        },
        array_bytes::Error::MismatchedLength { expect } => ArrayBytesError::MismatchedLength { expect: *expect },
    }
}

fn assert_rendering(error: array_bytes::Error) {
    let e = BridgeEthereumError::from_array_bytes(model(&error));
    assert_eq!(e, BridgeEthereumError::ArrayBytes(format!("{:?}", error)));
    assert_eq!(e.message(), format!("Array bytes error: {:?}", error));
}

#[test]
fn array_bytes_error_keeps_its_rendering() {
    let e = BridgeEthereumError::from_array_bytes(ArrayBytesError::InvalidLength);
    assert_eq!(e, BridgeEthereumError::ArrayBytes("InvalidLength".to_string()));
    let e = BridgeEthereumError::from_array_bytes(ArrayBytesError::MismatchedLength { expect: 4 });
    assert_eq!(e.message(), "Array bytes error: MismatchedLength { expect: 4 }");
}

#[test]
fn array_bytes_rendering_matches_debug() {
    assert_rendering(array_bytes::Error::InvalidLength);
    assert_rendering(array_bytes::Error::MismatchedLength { expect: 0 });
    assert_rendering(array_bytes::Error::MismatchedLength { expect: 1234567890 });
    assert_rendering(array_bytes::Error::InvalidCharacter { character: 'g', index: 17 });
    assert_rendering(array_bytes::Error::InvalidCharacter { character: '\'', index: 0 });
    assert_rendering(array_bytes::Error::InvalidCharacter { character: '\n', index: 3 });
    assert_rendering(array_bytes::Error::InvalidCharacter { character: 'é', index: 9 });
    assert_rendering(array_bytes::Error::ParseIntError("".parse::<u8>().unwrap_err()));
    assert_rendering(array_bytes::Error::ParseIntError("x".parse::<u8>().unwrap_err()));
    assert_rendering(array_bytes::Error::ParseIntError("300".parse::<u8>().unwrap_err()));
    assert_rendering(array_bytes::Error::ParseIntError("-300".parse::<i8>().unwrap_err()));
    assert_rendering(array_bytes::Error::ParseIntError("0".parse::<std::num::NonZeroU8>().unwrap_err()));
    let bad = vec![b'a', 0xff, b'b'];
    assert_rendering(array_bytes::Error::Utf8Error(std::str::from_utf8(&bad).unwrap_err()));
    let truncated = vec![b'a', b'b', 0xe2, 0x82];
    assert_rendering(array_bytes::Error::Utf8Error(std::str::from_utf8(&truncated).unwrap_err()));
}

#[test]
fn decimal_digits() {
    assert_eq!(decimal_text(0), "0");
    assert_eq!(decimal_text(907), "907");
    assert_eq!(decimal_text(usize::MAX), usize::MAX.to_string());
}

#[test]
fn messages_are_cloned() {
    let m = DarwiniaEthereumMessage::Scan(EthereumScanMessage::Start);
    assert!(matches!(m.clone(), DarwiniaEthereumMessage::Scan(EthereumScanMessage::Start)));
    let m = DarwiniaEthereumMessage::ToDarwinia(ToDarwiniaLinkedMessage::SendExtrinsic);
    assert!(matches!(m, DarwiniaEthereumMessage::ToDarwinia(_)));
    assert_eq!(ToRelayMessage::EthereumBlockNumber(3), ToRelayMessage::EthereumBlockNumber(3));
    let x = ToExtrinsicsMessage::Extrinsic(Extrinsic::GuardVote(1, true));
    assert!(matches!(x.clone(), ToExtrinsicsMessage::Extrinsic(Extrinsic::GuardVote(1, true))));
    assert_eq!(ToGuardMessage::StartGuard, ToGuardMessage::StartGuard);
    assert_ne!(EthereumScanMessage::Start, EthereumScanMessage::Stop);
}
