use codex_mcp_server::ids::{RequestId, ThreadId};

#[test]
fn thread_id_text_is_hyphenated_lower_hex() {
    let id = ThreadId::from_u128(0x0123_4567_89ab_cdef_0123_4567_89ab_cdef);
    assert_eq!(id.to_text(), "01234567-89ab-cdef-0123-456789abcdef");
    assert_eq!(ThreadId::from_u128(0).to_text(), "00000000-0000-0000-0000-000000000000");
    assert_eq!(id.as_u128(), 0x0123_4567_89ab_cdef_0123_4567_89ab_cdef);
}

#[test]
fn new_thread_ids_are_version_seven() {
    let a = ThreadId::new();
    let b = ThreadId::new();
    assert_ne!(a, b);
    let text = a.to_text();
    assert_eq!(text.len(), 36);
    assert_eq!(text.chars().nth(14), Some('7'));
    assert_eq!((a.as_u128() >> 76) & 0xf, 7);
}

#[test]
fn request_id_text() {
    assert_eq!(RequestId::Number(42).to_text(), "42");
    assert_eq!(RequestId::Number(-7).to_text(), "-7");
    assert_eq!(RequestId::Number(0).to_text(), "0");
    assert_eq!(RequestId::Number(i64::MIN).to_text(), "-9223372036854775808");
    assert_eq!(RequestId::Text("req-1".to_string()).to_text(), "req-1");
}

#[test]
fn request_ids_compare_by_value() {
    assert!(RequestId::Number(1).same_as(&RequestId::Number(1)));
    assert!(!RequestId::Number(1).same_as(&RequestId::Number(2)));
    assert!(RequestId::Text("a".to_string()).same_as(&RequestId::Text("a".to_string())));
    assert!(!RequestId::Text("1".to_string()).same_as(&RequestId::Number(1)));
    let original = RequestId::Text("b".to_string());
    assert_eq!(original.duplicate(), original);
}
