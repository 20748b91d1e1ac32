use synctube_bot::wire::{
    encode_add_video, encode_rename, escape_json_bytes, serialize_event, u64_to_dec,
    unescape_json_bytes,
};

#[test]
fn add_video_payload_is_src_object() {
    let ev = encode_add_video("abc", 1688789078114);
    assert_eq!(ev.code, 30);
    assert_eq!(ev.payload, b"{\"src\":\"abc\"}".to_vec());
    assert_eq!(ev.timestamp_millis, 1688789078114);
}

#[test]
fn rename_payload_is_json_string() {
    let ev = encode_rename("Rust SyncTube Bot", 1688792619084);
    assert_eq!(ev.code, 12);
    assert_eq!(ev.payload, b"\"Rust SyncTube Bot\"".to_vec());
}

#[test]
fn quote_in_video_id_is_escaped() {
    let ev = encode_add_video("a\"b", 1);
    assert_eq!(ev.payload, b"{\"src\":\"a\\\"b\"}".to_vec());
}

#[test]
fn escaped_id_round_trips() {
    let original = "a\"b\\c\nd";
    let escaped = escape_json_bytes(original.as_bytes());
    let decoded = unescape_json_bytes(&escaped);
    assert_eq!(decoded, original.as_bytes().to_vec());
}

#[test]
fn control_characters_become_unicode_escapes() {
    let escaped = escape_json_bytes(b"\n");
    assert_eq!(escaped, b"\\u000a".to_vec());
    let escaped = escape_json_bytes(&[0x1f]);
    assert_eq!(escaped, b"\\u001f".to_vec());
}

#[test]
fn plain_bytes_pass_through() {
    let escaped = escape_json_bytes(b"hello world");
    assert_eq!(escaped, b"hello world".to_vec());
}

#[test]
fn frame_has_code_payload_and_timestamp() {
    let ev = encode_add_video("abc", 1688789078114);
    let frame = serialize_event(&ev);
    assert_eq!(frame, b"[30,{\"src\":\"abc\"},1688789078114]".to_vec());
}

#[test]
fn rename_frame_shape() {
    let ev = encode_rename("bot", 7);
    let frame = serialize_event(&ev);
    assert_eq!(frame, b"[12,\"bot\",7]".to_vec());
}

#[test]
fn decimal_rendering() {
    assert_eq!(u64_to_dec(0), b"0".to_vec());
    assert_eq!(u64_to_dec(9), b"9".to_vec());
    assert_eq!(u64_to_dec(10), b"10".to_vec());
    assert_eq!(u64_to_dec(1688789078114), b"1688789078114".to_vec());
    assert_eq!(u64_to_dec(u64::MAX), b"18446744073709551615".to_vec());
}
