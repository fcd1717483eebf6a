//! End-to-end checks of the codec through its public interface.

use bussin::actions::BussActionError;
use bussin::settings::{BaseSettings, BodyLength, BussSettings, CustomSettings, Settings, SettingsEntry};
use bussin::types::BussPath;
use bussin::{BussAction, BussHeader, DecodeError, FromBytes, ToBytes, MAGIC_NUMBER, VERSION_MAJOR, VERSION_MINOR};

#[test]
fn action_defined_bytes_map_to_named_actions() {
    assert_eq!(BussAction::try_from_byte(0), Ok(BussAction::Noop));
    assert_eq!(BussAction::try_from_byte(1), Ok(BussAction::Read));
    assert_eq!(BussAction::try_from_byte(2), Ok(BussAction::Write));
    assert_eq!(BussAction::try_from_byte(3), Ok(BussAction::Modify));
    assert_eq!(BussAction::try_from_byte(4), Ok(BussAction::Delete));
}

#[test]
fn action_undefined_bytes_fail_with_the_exact_byte() {
    let mut value: u8 = 5;
    loop {
        assert_eq!(
            BussAction::try_from_byte(value),
            Err(BussActionError::Unhandled(value))
        );
        if value == 255 {
            break;
        }
        value += 1;
    }
}

#[test]
fn action_byte_round_trip() {
    for action in [
        BussAction::Noop,
        BussAction::Read,
        BussAction::Write,
        BussAction::Modify,
        BussAction::Delete,
    ] {
        assert_eq!(BussAction::try_from_byte(action.to_byte()), Ok(action));
    }
}

#[test]
fn header_new_uses_protocol_defaults() {
    let header = BussHeader::new();
    assert_eq!(header.magic_number, MAGIC_NUMBER);
    assert_eq!(header.version_major, VERSION_MAJOR);
    assert_eq!(header.version_minor, VERSION_MINOR);
    assert_eq!(header.action, BussAction::Noop);
    assert_eq!(header.padding, 0);
}

#[test]
fn header_default_matches_new() {
    assert_eq!(BussHeader::default(), BussHeader::new());
}

#[test]
fn header_set_action_changes_only_the_action() {
    let mut header = BussHeader::new();
    header.set_action(BussAction::Delete);
    assert_eq!(header.action, BussAction::Delete);
    assert_eq!(header.magic_number, MAGIC_NUMBER);
    assert_eq!(header.version_major, VERSION_MAJOR);
    assert_eq!(header.version_minor, VERSION_MINOR);
    assert_eq!(header.padding, 0);
}

#[test]
fn header_encodes_to_fixed_layout() {
    let mut header = BussHeader::new();
    header.set_action(BussAction::Read);
    let bytes = header.to_bytes();
    assert_eq!(
        bytes,
        vec![0x00, 0x04, 0x20, 0x69, VERSION_MAJOR, VERSION_MINOR, 0x01, 0x00]
    );
}

#[test]
fn header_round_trip_keeps_every_field() {
    let mut header = BussHeader::new();
    header.set_action(BussAction::Read);
    let bytes = header.to_bytes();
    let buffer: [u8; 8] = bytes.try_into().unwrap();
    let decoded = BussHeader::from_bytes(&buffer).unwrap();
    assert_eq!(decoded, header);
    assert_eq!(decoded.action, BussAction::Read);
    assert_eq!(decoded.magic_number, MAGIC_NUMBER);
    assert_eq!(decoded.version_major, VERSION_MAJOR);
    assert_eq!(decoded.version_minor, VERSION_MINOR);
}

#[test]
fn header_decode_rejects_bad_magic() {
    // one wrong byte in the magic word, all else well formed
    let buffer: [u8; 8] = [0x01, 0x04, 0x20, 0x69, 1, 0, 0x01, 0x00];
    assert_eq!(
        BussHeader::from_bytes(&buffer),
        Err(DecodeError::BadMagicNumber)
    );
    // a wholly different prefix, with garbage behind it
    let buffer: [u8; 8] = [0xde, 0xad, 0xbe, 0xef, 0xaa, 0xbb, 0xcc, 0xdd];
    assert_eq!(
        BussHeader::from_bytes(&buffer),
        Err(DecodeError::BadMagicNumber)
    );
}

#[test]
fn header_decode_checks_magic_before_the_action() {
    // both the magic and the action byte are bad: the magic error wins
    let buffer: [u8; 8] = [0xff, 0x04, 0x20, 0x69, 1, 0, 0xff, 0x00];
    assert_eq!(
        BussHeader::from_bytes(&buffer),
        Err(DecodeError::BadMagicNumber)
    );
}

#[test]
fn header_decode_rejects_undefined_action() {
    let buffer: [u8; 8] = [0x00, 0x04, 0x20, 0x69, 1, 0, 0x09, 0x00];
    assert_eq!(
        BussHeader::from_bytes(&buffer),
        Err(DecodeError::UnhandledAction(0x09))
    );
}

#[test]
fn header_decode_passes_nonzero_padding_through() {
    let buffer: [u8; 8] = [0x00, 0x04, 0x20, 0x69, 2, 7, 0x03, 0x5a];
    let decoded = BussHeader::from_bytes(&buffer).unwrap();
    assert_eq!(decoded.version_major, 2);
    assert_eq!(decoded.version_minor, 7);
    assert_eq!(decoded.action, BussAction::Modify);
    assert_eq!(decoded.padding, 0x5a);
}

#[test]
fn settings_kind_tag_bytes() {
    assert_eq!(BussSettings::BodyLength.to_byte(), 0x00);
    assert_eq!(BussSettings::Host.to_byte(), 0x01);
    assert_eq!(BussSettings::Custom.to_byte(), 0xff);
}

#[test]
fn empty_settings_encode_to_the_count_alone() {
    let settings = Settings::new();
    assert_eq!(settings.to_bytes(), vec![0x00, 0x00]);
}

#[test]
fn one_body_length_entry_encodes_tag_then_fixed_width_length() {
    let mut settings = Settings::new();
    settings.add(SettingsEntry::BodyLength(BodyLength::new(25)));
    assert_eq!(
        settings.to_bytes(),
        vec![0x00, 0x01, 0x00, 0x00, 0x00, 0x00, 0x00, 0x00, 0x00, 0x00, 0x19]
    );
}

#[test]
fn settings_keep_wire_order() {
    let mut settings = Settings::new();
    settings.add(SettingsEntry::BodyLength(BodyLength::new(3)));
    settings.add(SettingsEntry::Custom(CustomSettings::new(0x2a, vec![0x10, 0x20])));
    let entries = settings.iter();
    assert_eq!(entries.len(), 2);
    assert!(matches!(entries[0], SettingsEntry::BodyLength(_)));
    assert!(matches!(entries[1], SettingsEntry::Custom(_)));
    let bytes = settings.to_bytes();
    assert_eq!(
        bytes,
        vec![
            0x00, 0x02, // count
            0x00, 0x00, 0x00, 0x00, 0x00, 0x00, 0x00, 0x00, 0x03, // BodyLength(3)
            0xff, 0x2a, 0x10, 0x20, // Custom(0x2a, [0x10, 0x20])
        ]
    );
}

#[test]
fn settings_default_is_empty() {
    assert_eq!(Settings::default().to_bytes(), vec![0x00, 0x00]);
}

#[test]
fn body_length_accessors() {
    let entry = BodyLength::new(25);
    assert_eq!(entry.get_length(), 25);
    assert_eq!(entry.get_type(), BussSettings::BodyLength);
    assert_eq!(
        entry.get_body(),
        vec![0x00, 0x00, 0x00, 0x00, 0x00, 0x00, 0x00, 0x19]
    );
}

#[test]
fn custom_settings_body_is_sub_tag_then_payload() {
    let entry = CustomSettings::new(0x07, vec![0x01, 0x02, 0x03]);
    assert_eq!(entry.get_type(), BussSettings::Custom);
    assert_eq!(entry.get_body(), vec![0x07, 0x01, 0x02, 0x03]);
}

#[test]
fn custom_settings_empty_payload() {
    let entry = CustomSettings::new(0xab, Vec::new());
    assert_eq!(entry.get_body(), vec![0xab]);
}

#[test]
fn root_path_encodes_length_one_then_slash() {
    let path = BussPath::new("/");
    assert_eq!(
        path.to_bytes(),
        vec![0x00, 0x00, 0x00, 0x00, 0x00, 0x00, 0x00, 0x01, 0x2f]
    );
}

#[test]
fn longer_path_encodes_byte_length_then_utf8() {
    let path = BussPath::new("/files/data.txt");
    let bytes = path.to_bytes();
    let mut expected = vec![0x00, 0x00, 0x00, 0x00, 0x00, 0x00, 0x00, 0x0f];
    expected.extend_from_slice("/files/data.txt".as_bytes());
    assert_eq!(bytes, expected);
}

#[test]
fn empty_path_encodes_zero_length_and_nothing_else() {
    let path = BussPath::new("");
    assert_eq!(
        path.to_bytes(),
        vec![0x00, 0x00, 0x00, 0x00, 0x00, 0x00, 0x00, 0x00]
    );
}

#[test]
fn full_message_concatenates_header_path_settings() {
    let mut header = BussHeader::new();
    header.set_action(BussAction::Read);
    let path = BussPath::new("/");
    let mut settings = Settings::new();
    settings.add(SettingsEntry::BodyLength(BodyLength::new(25)));

    let mut message = header.to_bytes();
    message.extend(path.to_bytes());
    message.extend(settings.to_bytes());

    assert_eq!(
        message,
        vec![
            0x00, 0x04, 0x20, 0x69, 0x01, 0x00, 0x01, 0x00, // header
            0x00, 0x00, 0x00, 0x00, 0x00, 0x00, 0x00, 0x01, 0x2f, // path "/"
            0x00, 0x01, 0x00, 0x00, 0x00, 0x00, 0x00, 0x00, 0x00, 0x00, 0x19, // settings
        ]
    );
}
