use openbangla_ime::display_attribute::{AttrKind, DisplayAttribute, DisplayAttributeInfo, LineStyle};
use openbangla_ime::conf::{setting_bool, setting_string};
use openbangla_ime::global::terminated_len;

#[test]
fn terminated_len_finds_the_end_of_the_text() {
    let mut buf = vec![0u8; 16];
    buf[..5].copy_from_slice(b"C:\\ab");
    assert_eq!(terminated_len(&buf), Some(5));
    assert_eq!(terminated_len(&vec![7u8; 4]), Some(4));
    assert_eq!(terminated_len(&vec![1u8, 0, 0]), Some(1));
}

#[test]
fn terminated_len_refuses_empty_text() {
    assert_eq!(terminated_len(&vec![0u8; 8]), None);
    assert_eq!(terminated_len(&Vec::new()), None);
}

#[test]
fn stored_flags_are_read() {
    assert!(setting_bool(Some("true".to_string()), false));
    assert!(!setting_bool(Some("false".to_string()), true));
    assert!(!setting_bool(Some("True".to_string()), true));
    assert!(setting_bool(None, true));
    assert!(!setting_bool(None, false));
}

#[test]
fn stored_texts_fall_back_to_default() {
    assert_eq!(setting_string(Some("probhat".to_string()), "avro_phonetic"), "probhat");
    assert_eq!(setting_string(None, "avro_phonetic"), "avro_phonetic");
}

#[test]
fn preedit_is_underlined_as_input() {
    let attr = DisplayAttributeInfo::create().get_attribute_info();
    assert_eq!(attr, DisplayAttribute { line_style: LineStyle::Solid, bold_line: false, attr: AttrKind::Input });
}
