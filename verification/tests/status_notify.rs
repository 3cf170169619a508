use twelite_serial::Backend;
use twelite_serial::DecodeError;
use twelite_serial::FrameError;
use twelite_serial::Sender;
use twelite_serial::StatusNotify;
use twelite_serial::ValidateError;

const GOOD_LINE: &str = ":7881150175810000380026C9000C04220000FFFFFFFFFFA7";

/// Hex-encode 24 bytes as a frame line, for crafting test inputs.
fn encode_line(bytes: &[u8; 24]) -> String {
    let mut line = String::from(":");
    for b in bytes {
        line.push_str(&format!("{:02X}", b));
    }
    line
}

/// A 24-byte buffer whose final byte makes the wraparound sum zero.
fn with_checksum(mut bytes: [u8; 24]) -> [u8; 24] {
    let sum: u8 = bytes[..23].iter().fold(0u8, |s, v| s.wrapping_add(*v));
    bytes[23] = 0u8.wrapping_sub(sum);
    bytes
}

#[test]
fn test() {
    // Case 1
    let notify =
        StatusNotify::decode_str(":7881150175810000380026C9000C04220000FFFFFFFFFFA7").unwrap();

    assert_eq!(notify.source_device_id(), 0x78);
    assert_eq!(notify.command(), 0x81);
    assert_eq!(notify.packet_id(), 0x15);
    assert_eq!(notify.protocol_version(), 0x01);
    assert_eq!(notify.lqi(), 0x75);
    assert_eq!(notify.hardware_id(), 0x81000038);
    assert_eq!(notify.dest_device_id(), 0x00);
    assert_eq!(notify.timestamp(), 0x26c9);
    assert_eq!(notify.relay_count(), 0x00);
    assert_eq!(notify.power_voltage_millis(), 0x0c04);
    assert_eq!(notify.di_status(), 0x00);
    assert_eq!(notify.di_changed(), 0x00);
    assert_eq!(notify.ad_value(), [0xff, 0xff, 0xff, 0xff]);
    assert_eq!(notify.ad_fix(), 0xff);
    assert_eq!(notify.checksum(), 0xa7);
    assert_eq!(Ok(()), notify.validate());

    // Invalid Checksum
    let notify =
        StatusNotify::decode_str(":7881150175810000380026C9000C04220000FFFFFFFFFFFF").unwrap();

    assert_eq!(Err(ValidateError::InvalidChecksum(0xFFu8 - 0xA7)), notify.validate());

    // Invalid Protocol Version
    let notify =
        StatusNotify::decode_str(":7881150075810000380026C9000C04220000FFFFFFFFFFA8").unwrap();

    assert_eq!(Err(ValidateError::InvalidProtocolVersion(0x00)), notify.validate());

    // Invalid Command
    let notify =
        StatusNotify::decode_str(":7880150175810000380026C9000C04220000FFFFFFFFFFA8").unwrap();

    assert_eq!(Err(ValidateError::InvalidCommand(0x80)), notify.validate());

    // Invalid Realy Count
    let notify =
        StatusNotify::decode_str(":7881150175810000380026C9FF0C04220000FFFFFFFFFFA8").unwrap();

    assert_eq!(Err(ValidateError::InvalidRelayCount(0xFF)), notify.validate());
}

#[test]
fn decode_rejects_wrong_length_before_content() {
    // Too short, and full of bytes that would also fail the character
    // check: the length must be what is reported.
    assert_eq!(StatusNotify::decode_str("zz").unwrap_err(), DecodeError::InvalidLength(2));
    // One digit short of a full line.
    let short = &GOOD_LINE[..48];
    assert_eq!(StatusNotify::decode_str(short).unwrap_err(), DecodeError::InvalidLength(48));
    // One byte long.
    let long = format!("{}F", GOOD_LINE);
    assert_eq!(StatusNotify::decode_str(&long).unwrap_err(), DecodeError::InvalidLength(50));
    // The empty line.
    assert_eq!(StatusNotify::decode_str("").unwrap_err(), DecodeError::InvalidLength(0));
}

#[test]
fn decode_rejects_missing_sentinel() {
    let line = format!(";{}", &GOOD_LINE[1..]);
    assert_eq!(StatusNotify::decode_str(&line).unwrap_err(), DecodeError::InvalidCharacter(b';'));
}

#[test]
fn decode_rejects_lowercase_hex() {
    // Lowercase digits are not accepted, and the first offender is the one
    // reported.
    let line = GOOD_LINE.to_lowercase();
    assert_eq!(StatusNotify::decode_str(&line).unwrap_err(), DecodeError::InvalidCharacter(b'c'));
}

#[test]
fn decode_reports_first_bad_character() {
    let mut line: Vec<u8> = GOOD_LINE.as_bytes().to_vec();
    line[10] = b'g';
    line[20] = b'!';
    let line = String::from_utf8(line).unwrap();
    assert_eq!(StatusNotify::decode_str(&line).unwrap_err(), DecodeError::InvalidCharacter(b'g'));
}

#[test]
fn checksum_is_wraparound_sum() {
    let notify = StatusNotify::decode_str(GOOD_LINE).unwrap();
    assert_eq!(notify.validate_checksum(), Ok(()));

    // The reference line with its final byte changed to FF: the wrapped
    // total is 0xFF - 0xA7 = 0x58.
    let notify =
        StatusNotify::decode_str(":7881150175810000380026C9000C04220000FFFFFFFFFFFF").unwrap();
    assert_eq!(notify.validate_checksum(), Err(0x58));
    assert_eq!(notify.validate(), Err(ValidateError::InvalidChecksum(0x58)));
}

#[test]
fn digital_input_bits() {
    let mut bytes = [0u8; 24];
    bytes[1] = 0x81;
    bytes[3] = 0x01;
    bytes[16] = 0x05; // inputs 1 and 3 active
    bytes[17] = 0x0A; // inputs 2 and 4 changed
    let line = encode_line(&with_checksum(bytes));
    let notify = StatusNotify::decode_str(&line).unwrap();
    assert_eq!(notify.validate(), Ok(()));

    assert!(notify.di1_status());
    assert!(!notify.di2_status());
    assert!(notify.di3_status());
    assert!(!notify.di4_status());

    assert!(!notify.di1_changed());
    assert!(notify.di2_changed());
    assert!(!notify.di3_changed());
    assert!(notify.di4_changed());
}

#[test]
fn analog_values_and_corrections() {
    let mut bytes = [0u8; 24];
    bytes[18] = 0x11; // channel 4 raw
    bytes[19] = 0x22; // channel 3 raw
    bytes[20] = 0x33; // channel 2 raw
    bytes[21] = 0x44; // channel 1 raw
    bytes[22] = 0b00_01_10_11; // corrections: ch4=0, ch3=1, ch2=2, ch1=3
    let line = encode_line(&with_checksum(bytes));
    let notify = StatusNotify::decode_str(&line).unwrap();

    assert_eq!(notify.ad_value(), [0x44, 0x33, 0x22, 0x11]);
    assert_eq!(notify.ad1_fix(), 3);
    assert_eq!(notify.ad2_fix(), 2);
    assert_eq!(notify.ad3_fix(), 1);
    assert_eq!(notify.ad4_fix(), 0);

    assert_eq!(notify.ad1_voltage_millis(), (0x44 * 4 + 3) * 4);
    assert_eq!(notify.ad2_voltage_millis(), (0x33 * 4 + 2) * 4);
    assert_eq!(notify.ad3_voltage_millis(), (0x22 * 4 + 1) * 4);
    assert_eq!(notify.ad4_voltage_millis(), (0x11 * 4 + 0) * 4);
}

#[test]
fn analog_voltage_saturates_at_4092() {
    // rawValue = 0xFF with correction bits 0b11 gives (255 * 4 + 3) * 4.
    let notify = StatusNotify::decode_str(GOOD_LINE).unwrap();
    assert_eq!(notify.ad1_value(), 0xFF);
    assert_eq!(notify.ad1_fix(), 0b11);
    assert_eq!(notify.ad1_voltage_millis(), 4092);
    assert_eq!(notify.ad4_voltage_millis(), 4092);
}

#[test]
fn raw_bytes_round_trip() {
    let notify = StatusNotify::decode_str(GOOD_LINE).unwrap();
    let expected: [u8; 24] = [
        0x78, 0x81, 0x15, 0x01, 0x75, 0x81, 0x00, 0x00, 0x38, 0x00, 0x26, 0xC9, 0x00, 0x0C,
        0x04, 0x22, 0x00, 0x00, 0xFF, 0xFF, 0xFF, 0xFF, 0xFF, 0xA7,
    ];
    assert_eq!(notify.as_bytes(), &expected);
    assert_eq!(encode_line(&expected), GOOD_LINE);
    assert_eq!(notify.into_bytes(), expected);
}

#[test]
fn dry_run_sink_plans_no_call() {
    let sender = Sender::new(Backend { username: None, password: None, url: None });
    assert!(matches!(sender, Sender::Nothing));

    let notify = StatusNotify::decode_str(GOOD_LINE).unwrap();
    assert!(sender.plan(&notify).is_none());
}

#[test]
fn web_sink_plans_one_post_with_five_fields() {
    let sender = Sender::new(Backend {
        username: Some(String::from("user")),
        password: Some(String::from("secret")),
        url: Some(String::from("http://localhost:8080/notify")),
    });
    assert!(matches!(sender, Sender::Web(_)));

    let notify = StatusNotify::decode_str(GOOD_LINE).unwrap();
    let request = sender.plan(&notify).unwrap();

    assert_eq!(request.url, "http://localhost:8080/notify");
    assert_eq!(request.username.as_deref(), Some("user"));
    assert_eq!(request.password.as_deref(), Some("secret"));
    assert_eq!(request.wireless, 0x75);
    assert_eq!(request.battery, 3076);
    assert_eq!(request.doorsensor, 0x00);
    assert!(!request.status);
    assert!(!request.changed);
}

#[test]
fn process_line_accepts_only_valid_frames() {
    let notify = twelite_serial::pipeline::process_line(GOOD_LINE).unwrap();
    assert_eq!(notify.lqi(), 0x75);

    assert_eq!(
        twelite_serial::pipeline::process_line("nonsense").unwrap_err(),
        FrameError::Decode(DecodeError::InvalidLength(8))
    );

    assert_eq!(
        twelite_serial::pipeline::process_line(
            ":7881150175810000380026C9000C04220000FFFFFFFFFFFF"
        )
        .unwrap_err(),
        FrameError::Validate(ValidateError::InvalidChecksum(0x58))
    );
}
