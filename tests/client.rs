use clipcat::client::{Client, EndpointUri, Transport, DEFAULT_MAX_RECV_MESSAGE_SIZE};
use clipcat::interceptor::Interceptor;

fn endpoint(text: &str, scheme: Option<&str>, path: &str) -> EndpointUri {
    EndpointUri { text: text.to_owned(), scheme: scheme.map(str::to_owned), path: path.to_owned() }
}

#[test]
fn interceptor_with_token_sends_bearer_value() {
    let i = Interceptor::new(Some("abc".to_owned()));
    assert_eq!(i.authorization(), Some("Bearer abc".to_owned()));
    assert_eq!(i.authorization(), i.authorization());
    assert_eq!(i.clone().authorization(), Some("Bearer abc".to_owned()));
}

#[test]
fn interceptor_without_token_sends_nothing() {
    assert_eq!(Interceptor::new(Some(String::new())).authorization(), None);
    assert_eq!(Interceptor::new(None).authorization(), None);
    assert_eq!(Interceptor::default().authorization(), None);
}

#[test]
fn interceptor_drops_token_that_cannot_be_encoded() {
    assert_eq!(Interceptor::new(Some("a\nb".to_owned())).authorization(), None);
    assert_eq!(Interceptor::new(Some("a\u{7f}".to_owned())).authorization(), None);
    assert_eq!(Interceptor::new(Some("a\tb".to_owned())).authorization(), Some("Bearer a\tb".to_owned()));
}

#[test]
fn http_endpoint_selects_network_transport() {
    let plan = Client::builder()
        .grpc_endpoint(endpoint("http://host:1234/", Some("http"), "/"))
        .connection_plan();
    match plan.transport {
        Transport::Http { endpoint } => assert_eq!(endpoint, "http://host:1234/"),
        Transport::LocalSocket { .. } => panic!("expected the network transport"),
    }
}

#[test]
fn other_scheme_selects_local_socket() {
    let plan = Client::builder()
        .grpc_endpoint(endpoint("unix:///tmp/clip.sock", Some("unix"), "/tmp/clip.sock"))
        .connection_plan();
    match plan.transport {
        Transport::LocalSocket { socket_path, connect_uri } => {
            assert_eq!(socket_path, "/tmp/clip.sock");
            assert_eq!(connect_uri, "file://[::]//tmp/clip.sock");
        }
        Transport::Http { .. } => panic!("expected the local socket"),
    }
    let plan = Client::builder()
        .grpc_endpoint(endpoint("file:///run/clip.sock", Some("file"), "/run/clip.sock"))
        .connection_plan();
    assert!(matches!(plan.transport, Transport::LocalSocket { ref socket_path, .. } if socket_path == "/run/clip.sock"));
}

#[test]
fn https_endpoint_selects_network_transport() {
    let plan = Client::builder()
        .grpc_endpoint(endpoint("https://host:1234/", Some("https"), "/"))
        .connection_plan();
    match plan.transport {
        Transport::Http { endpoint } => assert_eq!(endpoint, "https://host:1234/"),
        Transport::LocalSocket { .. } => panic!("expected the network transport"),
    }
}

#[test]
fn default_builder_uses_local_socket_and_default_limit() {
    let plan = Client::builder().connection_plan();
    assert!(matches!(plan.transport, Transport::LocalSocket { ref socket_path, .. } if socket_path == "/"));
    assert_eq!(plan.max_decoding_message_size, 4 * 1024 * 1024);
    assert_eq!(DEFAULT_MAX_RECV_MESSAGE_SIZE, 4194304);
    assert_eq!(plan.interceptor.authorization(), None);
}

#[test]
fn max_decoding_message_size_is_kept_verbatim() {
    let plan = Client::builder().max_decoding_message_size(123).connection_plan();
    assert_eq!(plan.max_decoding_message_size, 123);
    let plan = Client::builder().max_decoding_message_size(0).connection_plan();
    assert_eq!(plan.max_decoding_message_size, 0);
}

#[test]
fn access_token_none_keeps_previous() {
    let plan = Client::builder()
        .access_token(Some("tok".to_owned()))
        .access_token(None)
        .connection_plan();
    assert_eq!(plan.interceptor.authorization(), Some("Bearer tok".to_owned()));
    let plan = Client::builder()
        .access_token(Some("tok".to_owned()))
        .access_token(Some(String::new()))
        .connection_plan();
    assert_eq!(plan.interceptor.authorization(), None);
}
