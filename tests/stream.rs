use gotify::operation::Operation;
use gotify::websocket::{check_upgrade, handshake_headers, on_frame, Action, Frame, Upgrade};
use gotify::ClientClient;

const SAMPLE_KEY: &str = "dGhlIHNhbXBsZSBub25jZQ==";
const SAMPLE_ACCEPT: &str = "s3pPLMBiTxaQ9kYGzzhZRbK+xOo=";

#[test]
fn upgrade_is_judged_by_status_and_accept_key() {
    assert_eq!(
        check_upgrade(101, Some(SAMPLE_ACCEPT.to_string()), SAMPLE_KEY),
        Upgrade::Switched
    );
    assert_eq!(
        check_upgrade(101, Some(SAMPLE_KEY.to_string()), SAMPLE_KEY),
        Upgrade::NotSwitched
    );
    assert_eq!(check_upgrade(101, None, SAMPLE_KEY), Upgrade::NotSwitched);
    assert_eq!(
        check_upgrade(200, Some(SAMPLE_ACCEPT.to_string()), SAMPLE_KEY),
        Upgrade::NotSwitched
    );
    assert_eq!(
        check_upgrade(401, Some(SAMPLE_ACCEPT.to_string()), SAMPLE_KEY),
        Upgrade::NotSwitched
    );
    assert_eq!(check_upgrade(503, None, SAMPLE_KEY), Upgrade::NotSwitched);
}

#[test]
fn upgrade_request_headers() {
    let headers = handshake_headers(SAMPLE_KEY);
    let expected: Vec<(String, String)> = [
        ("connection", "Upgrade"),
        ("upgrade", "websocket"),
        ("sec-websocket-version", "13"),
        ("sec-websocket-key", SAMPLE_KEY),
        ("sec-websocket-extensions", "permessage-deflate; client_max_window_bits"),
    ]
    .iter()
    .map(|(n, v)| (n.to_string(), v.to_string()))
    .collect();
    assert_eq!(headers, expected);
}

#[test]
fn stream_messages_handshake() {
    let client = ClientClient::new("http://localhost:30080", "C4er8DTiNk08mtt").unwrap();
    let handshake = client.stream_messages();
    assert_eq!(handshake.request.operation(), Operation::StreamMessages);
    assert_eq!(handshake.key.len(), 24);
    assert_eq!(handshake.http_version, (1, 1));
    assert_eq!(handshake.headers[3].1, handshake.key);
    assert_eq!(
        handshake.request.url().unwrap().as_str(),
        "http://localhost:30080/stream"
    );
    let other = client.stream_messages();
    assert_ne!(handshake.key, other.key);
}

#[test]
fn frames_keep_their_order() {
    let mut delivered = Vec::new();
    for i in 1..=10 {
        if let Action::Decode(text) = on_frame(Frame::Other) {
            delivered.push(text);
        }
        if let Action::Decode(text) = on_frame(Frame::Text(format!("message-{i}"))) {
            delivered.push(text);
        }
    }
    let expected: Vec<String> = (1..=10).map(|i| format!("message-{i}")).collect();
    assert_eq!(delivered, expected);
    assert!(matches!(on_frame(Frame::Other), Action::Skip));
}
