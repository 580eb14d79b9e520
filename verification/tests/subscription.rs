use v2ray_maid::subscription::{
    decode_subscription, is_share_line, share_text, shares_in_text, split_lines,
    SubscriptionError, VmessShare,
};

fn feed(text: &str) -> Vec<u8> {
    base64::encode(text).into_bytes()
}

fn share(document: &str) -> String {
    format!("vmess://{}", base64::encode(document))
}

#[test]
fn decode_subscription_yields_the_documents_in_order() {
    let text = format!("{}\n{}\n", share("{\"ps\":\"one\"}"), share("{\"ps\":\"two\"}"));
    let documents = decode_subscription(&feed(&text)).unwrap();
    assert_eq!(documents, vec![b"{\"ps\":\"one\"}".to_vec(), b"{\"ps\":\"two\"}".to_vec()]);
}

#[test]
fn decode_subscription_passes_over_other_lines() {
    let text = format!("ss://abc\n\n{}\r\ntrojan://x\nvmess:/short", share("doc"));
    let documents = decode_subscription(&feed(&text)).unwrap();
    assert_eq!(documents, vec![b"doc".to_vec()]);
}

#[test]
fn decode_subscription_of_an_empty_feed() {
    assert_eq!(decode_subscription(b""), Ok(Vec::new()));
    assert_eq!(decode_subscription(&feed("\n\n")), Ok(Vec::new()));
}

#[test]
fn decode_subscription_rejects_a_feed_that_is_not_base64() {
    assert_eq!(decode_subscription(b"not base64!"), Err(SubscriptionError::BadEncoding));
    assert_eq!(decode_subscription(b"vmess://abc"), Err(SubscriptionError::BadEncoding));
}

#[test]
fn decode_subscription_rejects_text_that_is_not_utf8() {
    let body = base64::encode([0xffu8, 0xfe, 0x0a]).into_bytes();
    assert_eq!(decode_subscription(&body), Err(SubscriptionError::NotText));
    assert_eq!(shares_in_text(&[0xc3, 0x28]), Err(SubscriptionError::NotText));
}

#[test]
fn decode_subscription_rejects_a_share_that_is_not_base64() {
    let text = format!("{}\nvmess://***\n", share("doc"));
    assert_eq!(decode_subscription(&feed(&text)), Err(SubscriptionError::BadShare));
}

#[test]
fn share_with_an_empty_rest_is_an_empty_document() {
    assert_eq!(shares_in_text(b"vmess://"), Ok(vec![Vec::new()]));
}

#[test]
fn shares_in_text_reads_plain_text() {
    let text = format!("{}\nplain", share("a"));
    assert_eq!(shares_in_text(text.as_bytes()), Ok(vec![b"a".to_vec()]));
}

#[test]
fn split_lines_splits_at_line_feeds() {
    assert_eq!(split_lines(b"a\nb\nc"), vec![b"a".to_vec(), b"b".to_vec(), b"c".to_vec()]);
    assert_eq!(split_lines(b"a\nb\n"), vec![b"a".to_vec(), b"b".to_vec()]);
}

#[test]
fn split_lines_drops_a_return_before_a_line_feed() {
    assert_eq!(split_lines(b"a\r\nb\r\n"), vec![b"a".to_vec(), b"b".to_vec()]);
    assert_eq!(split_lines(b"a\r\r\n"), vec![b"a\r".to_vec()]);
}

#[test]
fn split_lines_keeps_a_return_without_line_feed() {
    assert_eq!(split_lines(b"a\rb"), vec![b"a\rb".to_vec()]);
    assert_eq!(split_lines(b"a\nb\r"), vec![b"a".to_vec(), b"b\r".to_vec()]);
}

#[test]
fn split_lines_keeps_empty_lines() {
    assert_eq!(split_lines(b""), Vec::<Vec<u8>>::new());
    assert_eq!(split_lines(b"\n"), vec![Vec::<u8>::new()]);
    assert_eq!(split_lines(b"\n\na"), vec![Vec::new(), Vec::new(), b"a".to_vec()]);
}

#[test]
fn split_lines_agrees_with_the_standard_library() {
    for text in ["", "a", "a\n", "\r\n", "a\r\nb\nc\r", "\n\n\n", "x\r\r\ny", "é\nü\r\n"] {
        let expected: Vec<Vec<u8>> = text.lines().map(|l| l.as_bytes().to_vec()).collect();
        assert_eq!(split_lines(text.as_bytes()), expected, "for {:?}", text);
    }
}

#[test]
fn is_share_line_looks_at_the_prefix() {
    assert!(is_share_line(b"vmess://abc"));
    assert!(is_share_line(b"vmess://"));
    assert!(!is_share_line(b"vmess:/"));
    assert!(!is_share_line(b" vmess://abc"));
    assert!(!is_share_line(b"VMESS://abc"));
    assert!(!is_share_line(b""));
}

#[test]
fn share_becomes_a_vmess_server() {
    let share = VmessShare {
        host: "h.example".to_string(),
        path: "/ws".to_string(),
        tls: "tls".to_string(),
        verify_cert: true,
        add: "1.2.3.4".to_string(),
        port: 443,
        aid: 2,
        net: "ws".to_string(),
        type_: "none".to_string(),
        v: "2".to_string(),
        ps: "label".to_string(),
        id: "uuid".to_string(),
        class: 1,
    };
    let link = share.into_vlink();
    assert_eq!(link.protocol, "vmess");
    assert_eq!(link.address, "1.2.3.4");
    assert_eq!(link.port, 443);
    assert_eq!(link.id, "uuid");
    assert_eq!(link.alter_id, 2);
    assert_eq!(link.security, "auto");
    assert_eq!(link.network, "ws");
    assert_eq!(link.remarks, "label");
    assert_eq!(link.header_type, "none");
    assert_eq!(link.request_host, "h.example");
    assert_eq!(link.path, "/ws");
    assert_eq!(link.stream_security, "tls");
    assert_eq!(link.latency, -1);
}

#[test]
fn share_text_is_what_follows_the_prefix() {
    assert_eq!(share_text(b"vmess://abc"), Some(&b"abc"[..]));
    assert_eq!(share_text(b"vmess://"), Some(&b""[..]));
    assert_eq!(share_text(b"ss://abc"), None);
    assert_eq!(share_text(b"vmess:/"), None);
}
