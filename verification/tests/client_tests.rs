use seabird::client::select_transport;
use seabird::{
    AuthHeaderInterceptor, Block, Client, ClientConfig, ClientError, ConfigError, ContentNode,
    MessageContent, NodeKind, Operation, Transport,
};
use std::collections::HashMap;

fn config(url: &str, token: &str) -> ClientConfig {
    ClientConfig { url: url.to_string(), token: token.to_string() }
}

fn ready(url: &str, token: &str) -> Client {
    Client::new(config(url, token), Ok(())).expect("a valid configuration")
}

#[test]
fn scheme_dispatch_selects_the_transport() {
    assert_eq!(select_transport(None), Transport::Encrypted);
    assert_eq!(select_transport(Some("https")), Transport::Encrypted);
    assert_eq!(select_transport(Some("http")), Transport::Plain);
    assert_eq!(select_transport(Some("ftp")), Transport::Plain);
}

#[test]
fn scheme_dispatch_compares_the_whole_scheme() {
    assert_eq!(select_transport(Some("")), Transport::Plain);
    assert_eq!(select_transport(Some("http")), Transport::Plain);
    assert_eq!(select_transport(Some("httpss")), Transport::Plain);
    assert_eq!(select_transport(Some("HTTPS")), Transport::Plain);
}

#[test]
fn ftp_url_parses_and_selects_the_plain_transport() {
    assert_eq!(config("ftp://x", "any token").transport(), Ok(Transport::Plain));
    let client = ready("ftp://x", "t");
    assert_eq!(client.transport(), Transport::Plain);
}

#[test]
fn https_and_absent_schemes_select_the_encrypted_transport() {
    assert_eq!(config("https://seabird.example:443", "t").transport(), Ok(Transport::Encrypted));
    assert_eq!(config("seabird.example:11235", "t").transport(), Ok(Transport::Encrypted));
    assert_eq!(config("HTTPS://seabird.example", "t").transport(), Ok(Transport::Encrypted));
}

#[test]
fn http_scheme_selects_the_plain_transport() {
    assert_eq!(config("http://localhost:11235", "t").transport(), Ok(Transport::Plain));
}

#[test]
fn malformed_url_is_a_config_error() {
    let fault = Err(ClientError::Config(ConfigError::MalformedUrl));
    assert_eq!(config("", "t").transport(), fault);
    assert_eq!(config("http://exa mple.org", "t").transport(), fault);
    assert_eq!(config("http://[::1", "t").transport(), fault);
}

#[test]
fn construction_succeeds_and_formats_the_bearer_value() {
    let client = ready("https://seabird.example", "SECRET-REDACTED");
    assert_eq!(client.interceptor().header(), "Bearer SECRET-REDACTED");
    assert_eq!(client.transport(), Transport::Encrypted);
    assert_eq!(client.config().url, "https://seabird.example");
    assert_eq!(client.config().token, "SECRET-REDACTED");
}

#[test]
fn token_with_a_newline_is_a_config_error() {
    let made = Client::new(config("https://seabird.example", "abc\ndef"), Ok(()));
    assert_eq!(made.err(), Some(ClientError::Config(ConfigError::MalformedToken)));
}

#[test]
fn token_with_other_control_characters_is_a_config_error() {
    for token in ["\r", "a\u{0}", "\u{1f}x", "x\u{7f}"] {
        let made = Client::new(config("http://h", token), Ok(()));
        assert_eq!(made.err(), Some(ClientError::Config(ConfigError::MalformedToken)));
        assert_eq!(AuthHeaderInterceptor::bearer(token).err(), Some(ConfigError::MalformedToken));
    }
}

#[test]
fn token_with_tab_space_or_text_beyond_ascii_is_accepted() {
    for token in ["", " ", "a\tb", "~", "\u{80}", "clé", "鍵"] {
        let interceptor = AuthHeaderInterceptor::bearer(token).expect("a legal header value");
        assert_eq!(interceptor.header(), format!("Bearer {}", token));
        assert_eq!(interceptor.clone().header(), interceptor.header());
    }
}

#[test]
fn malformed_url_is_reported_before_a_failed_connection() {
    let made = Client::new(config("", "bad\ntoken"), Err(String::from("unreachable")));
    assert_eq!(made.err(), Some(ClientError::Config(ConfigError::MalformedUrl)));
}

#[test]
fn failed_connection_is_reported_with_its_cause() {
    let made = Client::new(config("https://seabird.example", "t"), Err(String::from("handshake failed")));
    assert_eq!(made.err(), Some(ClientError::Connection(String::from("handshake failed"))));
}

#[test]
fn malformed_token_is_reported_whatever_the_connection() {
    let made = Client::new(config("https://seabird.example", "bad\ntoken"), Err(String::from("down")));
    assert_eq!(made.err(), Some(ClientError::Config(ConfigError::MalformedToken)));
    let made = Client::new(config("ftp://x", "a\nb"), Err(String::from("unreachable")));
    assert_eq!(made.err(), Some(ClientError::Config(ConfigError::MalformedToken)));
    let made = Client::new(config("ftp://x", "a\nb"), Ok(()));
    assert_eq!(made.err(), Some(ClientError::Config(ConfigError::MalformedToken)));
}

#[test]
fn endpoint_refuses_a_malformed_token_before_any_connection() {
    let planned = config("ftp://x", "a\nb").endpoint();
    assert_eq!(planned.err(), Some(ClientError::Config(ConfigError::MalformedToken)));
    for token in ["\r", "a\u{0}", "\u{1f}x", "x\u{7f}"] {
        let planned = config("https://seabird.example", token).endpoint();
        assert_eq!(planned.err(), Some(ClientError::Config(ConfigError::MalformedToken)));
    }
}

#[test]
fn endpoint_refuses_a_malformed_url_first() {
    let planned = config("", "a\nb").endpoint();
    assert_eq!(planned.err(), Some(ClientError::Config(ConfigError::MalformedUrl)));
    let planned = config("http://exa mple.org", "t").endpoint();
    assert_eq!(planned.err(), Some(ClientError::Config(ConfigError::MalformedUrl)));
}

#[test]
fn endpoint_hands_out_the_parsed_uri_and_the_transport() {
    let planned = config("https://seabird.example:443/path", "t").endpoint().expect("a valid configuration");
    assert_eq!(planned.transport, Transport::Encrypted);
    assert_eq!(planned.uri.scheme_str(), Some("https"));
    assert_eq!(planned.uri.host(), Some("seabird.example"));
    assert_eq!(planned.uri.port_u16(), Some(443));
    let planned = config("ftp://x", "a\tb").endpoint().expect("a valid configuration");
    assert_eq!(planned.transport, Transport::Plain);
    assert_eq!(planned.uri.host(), Some("x"));
    let planned = config("seabird.example:11235", "").endpoint().expect("a valid configuration");
    assert_eq!(planned.transport, Transport::Encrypted);
    assert_eq!(planned.uri.scheme_str(), None);
}

#[test]
fn legal_token_never_causes_a_config_error() {
    for token in ["", "visible ASCII ~!@#", "with\ttab", " "] {
        assert!(config("http://h", token).endpoint().is_ok());
        assert!(Client::new(config("http://h", token), Ok(())).is_ok());
        let made = Client::new(config("http://h", token), Err(String::from("down")));
        assert_eq!(made.err(), Some(ClientError::Connection(String::from("down"))));
    }
}

#[test]
fn send_message_with_plain_text_and_no_tags() {
    let client = ready("http://h", "t");
    let call = client.send_message("chan-1", "hi", None);
    assert_eq!(call.operation, Operation::SendMessage);
    assert_eq!(call.target_id, "chan-1");
    assert_eq!(call.text, "hi");
    assert!(call.content_node.is_none());
    assert!(call.tags.is_empty());
}

#[test]
fn send_message_with_a_block_tree_and_tags() {
    let client = ready("http://h", "t");
    let tree = Block::new().text("Hello ").bold("world");
    let expected = format!("{:?}", ContentNode::from(tree.clone()));
    let mut tags = HashMap::new();
    tags.insert(String::from("k"), String::from("v"));
    let call = client.send_message(String::from("chan-1"), tree, Some(tags.clone()));
    assert_eq!(call.operation, Operation::SendMessage);
    assert_eq!(call.text, "");
    assert_eq!(format!("{:?}", call.content_node.expect("a tree")), expected);
    assert_eq!(call.tags, tags);
}

#[test]
fn each_operation_issues_its_own_call() {
    let client = ready("http://h", "t");
    let call = client.send_private_message("user-1", "psst", None);
    assert_eq!(call.operation, Operation::SendPrivateMessage);
    assert_eq!((call.target_id.as_str(), call.text.as_str()), ("user-1", "psst"));
    let call = client.perform_action("chan-2", "waves", Some(HashMap::new()));
    assert_eq!(call.operation, Operation::PerformAction);
    assert_eq!((call.target_id.as_str(), call.text.as_str()), ("chan-2", "waves"));
    assert!(call.tags.is_empty());
    let call = client.perform_private_action("user-2", Block::new().italic("nods"), None);
    assert_eq!(call.operation, Operation::PerformPrivateAction);
    assert_eq!(call.target_id, "user-2");
    assert_eq!(call.text, "");
    assert!(matches!(call.content_node, Some(ContentNode { kind: NodeKind::Italic { .. }, .. })));
}

#[test]
fn identifiers_are_not_validated() {
    let client = ready("http://h", "t");
    let call = client.send_message("", "", None);
    assert_eq!(call.target_id, "");
    assert_eq!(call.text, "");
    assert!(call.content_node.is_none());
}

#[test]
fn plain_string_converts_to_plain_text() {
    assert!(matches!(MessageContent::from("exact string"), MessageContent::PlainText(ref text) if text == "exact string"));
    assert!(matches!(MessageContent::from(String::from("")), MessageContent::PlainText(ref text) if text.is_empty()));
    let (text, node) = MessageContent::from("hi").into_wire();
    assert_eq!(text, "hi");
    assert!(node.is_none());
}

#[test]
fn block_tree_converts_to_structured_block_with_empty_text() {
    let content = MessageContent::from(Block::new().text("a").text("b"));
    assert!(matches!(content, MessageContent::StructuredBlock(ContentNode { kind: NodeKind::Container { ref items }, .. }) if items.len() == 2));
    let (text, node) = content.clone().into_wire();
    assert_eq!(text, "");
    assert_eq!(format!("{:?}", node), format!("{:?}", Some(ContentNode::from(Block::new().text("a").text("b")))));
}

#[test]
fn settle_passes_success_and_failure_through() {
    assert_eq!(Client::settle(Ok(())), Ok(()));
    assert_eq!(Client::settle(Err(String::from("status: Unavailable"))), Err(ClientError::Call(String::from("status: Unavailable"))));
}

#[test]
fn errors_name_the_step_that_failed() {
    assert_eq!(ConfigError::MalformedUrl.message(), "failed to parse seabird URL");
    assert_eq!(ClientError::Config(ConfigError::MalformedUrl).message(), "failed to parse seabird URL");
    assert_eq!(ClientError::Config(ConfigError::MalformedToken).message(), ConfigError::MalformedToken.message());
    assert_eq!(ClientError::Connection(String::from("refused")).message(), "Failed to connect to seabird: refused");
    assert_eq!(ClientError::Call(String::from("boom")).message(), "call failed: boom");
}
