use textshare::reply::{content_or_empty, reply_kind, starts_with, ReplyKind};

#[test]
fn curl_gets_plain_text() {
    assert_eq!(reply_kind(Some("curl/7.68.0")), ReplyKind::PlainText);
    assert_eq!(reply_kind(Some("curl/")), ReplyKind::PlainText);
}

#[test]
fn other_clients_get_the_page() {
    assert_eq!(reply_kind(Some("Mozilla/5.0 (X11; Linux x86_64)")), ReplyKind::Html);
    assert_eq!(reply_kind(Some("Wget/1.21")), ReplyKind::Html);
    assert_eq!(reply_kind(Some("curl")), ReplyKind::Html);
    assert_eq!(reply_kind(Some("Curl/7.68.0")), ReplyKind::Html);
    assert_eq!(reply_kind(Some(" curl/7.68.0")), ReplyKind::Html);
    assert_eq!(reply_kind(Some("libcurl/7.68.0")), ReplyKind::Html);
    assert_eq!(reply_kind(Some("")), ReplyKind::Html);
}

#[test]
fn nameless_client_gets_the_page() {
    assert_eq!(reply_kind(None), ReplyKind::Html);
}

#[test]
fn starts_with_compares_characters() {
    assert!(starts_with("curl/8", "curl/"));
    assert!(starts_with("abc", ""));
    assert!(starts_with("", ""));
    assert!(starts_with("abc", "abc"));
    assert!(!starts_with("ab", "abc"));
    assert!(!starts_with("", "a"));
    assert!(!starts_with("abd", "abc"));
    assert!(starts_with("héllo wörld", "héllo"));
    assert!(!starts_with("hello", "hé"));
    assert!(starts_with("日本語のテキスト", "日本"));
    assert!(!starts_with("日本語", "日本誤"));
}

#[test]
fn miss_is_answered_with_empty_text() {
    assert_eq!(content_or_empty(None), "");
    assert_eq!(content_or_empty(Some("stored".to_string())), "stored");
    assert_eq!(content_or_empty(Some(String::new())), "");
}
