use home_companion::host::helpers::{report_transcoding, transcode_toml_to_message_pack};

#[test]
fn transcode_single_string_setting() {
    let table: toml::Table = toml::from_str(r#"host = "a""#).unwrap();
    let bytes = transcode_toml_to_message_pack(table).unwrap();
    assert_eq!(bytes, vec![0x81, 0xa4, b'h', b'o', b's', b't', 0xa1, b'a']);
}

#[test]
fn transcode_empty_table() {
    let bytes = transcode_toml_to_message_pack(toml::Table::new()).unwrap();
    assert_eq!(bytes, vec![0x80]);
}

#[test]
fn transcoding_failure_is_reported_in_context() {
    assert_eq!(
        report_transcoding(Err("invalid data model".to_string())),
        Err("failed to transcode TOML table to MessagePack: invalid data model".to_string())
    );
    assert_eq!(report_transcoding(Ok(vec![0x80])), Ok(vec![0x80]));
}

#[test]
fn transcoded_settings_open_a_map() {
    let table: toml::Table = toml::from_str("a = 1\nb = [true, 2.5]\n[c]\nd = \"e\"\n").unwrap();
    let bytes = transcode_toml_to_message_pack(table).unwrap();
    assert_eq!(bytes[0], 0x83);
}
