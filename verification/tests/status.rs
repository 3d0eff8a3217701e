use krunkit::error::Error;
use krunkit::status::handle_incoming_stream;
use krunkit::status::listener_step;
use krunkit::status::ListenerAction;
use krunkit::status::ListenerEvent;
use krunkit::status::ListenerState;
use krunkit::status::parse_ipv4;
use krunkit::status::parse_tcp_input;
use krunkit::status::response_text;
use krunkit::status::shutdown_value;
use krunkit::status::wants_listener;
use krunkit::status::Reply;
use krunkit::status::RestfulUri;
use krunkit::status::UriScheme;
use krunkit::status::VmState;

#[test]
fn parse_valid_unix_scheme() {
    assert_eq!(
        RestfulUri::Unix("/tmp/path".to_string()),
        RestfulUri::from_str("unix:///tmp/path").unwrap()
    );
}

#[test]
fn parse_unix_scheme_missing_path() {
    assert_eq!(
        "empty unix socket path".to_string(),
        RestfulUri::from_str("unix://").err().unwrap().message()
    );
}

#[test]
fn parse_unix_scheme_missing_slashes() {
    assert_eq!(
        "invalid scheme input".to_string(),
        RestfulUri::from_str("unix:").err().unwrap().message()
    );
}

#[test]
fn parse_unix_scheme_misspelling() {
    assert_eq!(
        "invalid scheme input".to_string(),
        RestfulUri::from_str("uni://path").err().unwrap().message()
    );
}

#[test]
fn parse_valid_tcp_scheme() {
    assert_eq!(
        RestfulUri::Tcp([127, 0, 0, 1], 8080),
        RestfulUri::from_str("tcp://localhost:8080").unwrap(),
    );
}

#[test]
fn parse_tcp_scheme_missing_port() {
    assert_eq!(
        "restful URI formatted incorrectly".to_string(),
        RestfulUri::from_str("tcp://localhost")
            .err()
            .unwrap()
            .message()
    );
}

#[test]
fn parse_tcp_scheme_with_unix_path() {
    assert_eq!(
        "restful URI formatted incorrectly".to_string(),
        RestfulUri::from_str("tcp:///tmp/path")
            .err()
            .unwrap()
            .message(),
    );
}

#[test]
fn parse_valid_none_scheme() {
    assert_eq!(RestfulUri::Disabled, RestfulUri::from_str("none://").unwrap());
}

#[test]
fn parse_none_scheme_missing_postfix() {
    assert_eq!(
        "invalid scheme input".to_string(),
        RestfulUri::from_str("none").err().unwrap().message(),
    );
}

#[test]
fn parse_random_string_scheme() {
    assert_eq!(
        "invalid scheme input".to_string(),
        RestfulUri::from_str("foobar").err().unwrap().message(),
    );
}

#[test]
fn tcp_addresses() {
    assert_eq!(
        RestfulUri::from_str("tcp://localhost:49573"),
        Ok(RestfulUri::Tcp([127, 0, 0, 1], 49573))
    );
    assert_eq!(
        RestfulUri::from_str("tcp://192.168.1.20:49573"),
        Ok(RestfulUri::Tcp([192, 168, 1, 20], 49573))
    );
    assert_eq!(
        RestfulUri::from_str("tcp://0.0.0.0:0"),
        Ok(RestfulUri::Tcp([0, 0, 0, 0], 0))
    );
    assert_eq!(
        RestfulUri::from_str("tcp://255.255.255.255:65535"),
        Ok(RestfulUri::Tcp([255, 255, 255, 255], 65535))
    );
    assert_eq!(
        RestfulUri::from_str("tcp://localhost:65536"),
        Err(Error::InvalidUriPort)
    );
    assert_eq!(
        RestfulUri::from_str("tcp://localhost:"),
        Err(Error::InvalidUriPort)
    );
    assert_eq!(
        RestfulUri::from_str("tcp://256.0.0.1:80"),
        Err(Error::InvalidIpAddress)
    );
    assert_eq!(
        RestfulUri::from_str("tcp://example.com:80"),
        Err(Error::InvalidIpAddress)
    );
    assert_eq!(
        RestfulUri::from_str("tcp://1.2.3.4:80:90"),
        Err(Error::MalformedUri)
    );
    assert_eq!(
        RestfulUri::from_str("tcp://LOCALHOST:80"),
        Err(Error::InvalidIpAddress)
    );
    assert_eq!(
        Error::InvalidIpAddress.message(),
        "restful URI IP address formatted incorrectly"
    );
    assert_eq!(
        Error::InvalidUriPort.message(),
        "restful URI port number formatted incorrectly"
    );
}

#[test]
fn dotted_addresses() {
    assert_eq!(parse_ipv4("127.0.0.1"), Some([127, 0, 0, 1]));
    assert_eq!(parse_ipv4("10.20.30.40"), Some([10, 20, 30, 40]));
    assert_eq!(parse_ipv4("1.2.3"), None);
    assert_eq!(parse_ipv4("1.2.3.4.5"), None);
    assert_eq!(parse_ipv4("01.2.3.4"), None);
    assert_eq!(parse_ipv4("1.2.3.256"), None);
    assert_eq!(parse_ipv4("1.2.3."), None);
    assert_eq!(parse_ipv4("+1.2.3.4"), None);
    assert_eq!(parse_ipv4("1.2.3.0004"), None);
    assert_eq!(parse_ipv4(""), None);
    assert_eq!(parse_tcp_input("localhost:1"), Ok(([127, 0, 0, 1], 1)));
}

#[test]
fn value_is_taken_as_it_is() {
    assert_eq!(
        RestfulUri::from_str("unix:///tmp/a\nrest"),
        Ok(RestfulUri::Unix("/tmp/a\nrest".to_string()))
    );
    assert_eq!(
        RestfulUri::from_str("unix://\n/tmp/a"),
        Ok(RestfulUri::Unix("\n/tmp/a".to_string()))
    );
    assert_eq!(
        RestfulUri::from_str("unix:// /tmp/with space"),
        Ok(RestfulUri::Unix(" /tmp/with space".to_string()))
    );
    assert_eq!(
        RestfulUri::from_str("tcp://1.2.3.4:5\n"),
        Err(Error::InvalidUriPort)
    );
    assert_eq!(RestfulUri::from_str("none://anything"), Ok(RestfulUri::Disabled));
    assert_eq!(RestfulUri::from_str("none://any\nthing"), Ok(RestfulUri::Disabled));
    assert_eq!(
        RestfulUri::from_str(" tcp://localhost:1"),
        Err(Error::InvalidSchemeInput)
    );
    assert_eq!(
        RestfulUri::from_str("TCP://localhost:1"),
        Err(Error::InvalidSchemeInput)
    );
}

#[test]
fn schemes() {
    assert_eq!(UriScheme::from_str("tcp"), Ok(UriScheme::Tcp));
    assert_eq!(UriScheme::from_str("unix"), Ok(UriScheme::Unix));
    assert_eq!(UriScheme::from_str("none"), Ok(UriScheme::Disabled));
    assert_eq!(UriScheme::from_str("http"), Err(Error::InvalidScheme));
    assert_eq!(Error::InvalidScheme.message(), "invalid scheme");
    assert_eq!(UriScheme::default(), UriScheme::Disabled);
    assert_eq!(RestfulUri::default(), RestfulUri::Disabled);
}

#[test]
fn listener_is_wanted_for_an_address_only() {
    assert!(!wants_listener(&None));
    assert!(!wants_listener(&Some(RestfulUri::Disabled)));
    assert!(wants_listener(&Some(RestfulUri::Unix("/tmp/s".to_string()))));
    assert!(wants_listener(&Some(RestfulUri::Tcp([127, 0, 0, 1], 80))));
}

#[test]
fn post_request_stops_the_machine() {
    let reply = handle_incoming_stream(b"POST /vm/state HTTP/1.1\r\n\r\n{\"state\": \"Stop\"}");
    assert_eq!(
        reply,
        Reply {
            state: VmState::Stopping,
            shutdown: true
        }
    );
    assert_eq!(
        response_text(reply.state),
        "HTTP/1.1 200 OK\r\nContent-type: application/json\r\n\r\n{\"state\": \"VirtualMachineStateStopping\"}"
    );
    assert_eq!(shutdown_value(), 1u64.to_le_bytes());
    assert_eq!(shutdown_value().len(), 8);
}

#[test]
fn other_requests_report_the_state() {
    let reply = handle_incoming_stream(b"GET /vm/state HTTP/1.1\r\n\r\n");
    assert_eq!(
        reply,
        Reply {
            state: VmState::Running,
            shutdown: false
        }
    );
    assert_eq!(
        response_text(reply.state),
        "HTTP/1.1 200 OK\r\nContent-type: application/json\r\n\r\n{\"state\": \"VirtualMachineStateRunning\"}"
    );
    assert!(!handle_incoming_stream(b"").shutdown);
    assert!(!handle_incoming_stream(b"POS").shutdown);
    assert!(!handle_incoming_stream(b"post").shutdown);
    assert!(!handle_incoming_stream(b"PO ST").shutdown);
    assert!(handle_incoming_stream(b"POST").shutdown);
    assert!(handle_incoming_stream(b"xxPOST").shutdown);
    assert!(handle_incoming_stream(b"GET /POST").shutdown);
    let mut buf = [0u8; 4096];
    buf[4092..].copy_from_slice(b"POST");
    assert!(handle_incoming_stream(&buf).shutdown);
    buf[4095] = 0;
    assert!(!handle_incoming_stream(&buf).shutdown);
}

#[test]
fn listener_serves_one_request_after_another() {
    let step = |state: ListenerState, event: ListenerEvent| listener_step(state, &event);
    assert_eq!(
        step(ListenerState::Idle, ListenerEvent::Start { listen: false }),
        (ListenerState::Idle, ListenerAction::Nothing)
    );
    assert_eq!(
        step(ListenerState::Idle, ListenerEvent::Start { listen: true }),
        (ListenerState::Binding, ListenerAction::Bind)
    );
    assert_eq!(
        step(ListenerState::Binding, ListenerEvent::BindFailed),
        (ListenerState::Failed, ListenerAction::Fail)
    );
    assert_eq!(
        step(ListenerState::Binding, ListenerEvent::Bound),
        (ListenerState::AwaitingRequest, ListenerAction::Accept)
    );
    assert_eq!(
        step(
            ListenerState::AwaitingRequest,
            ListenerEvent::Request(b"POST /vm/state HTTP/1.1".to_vec())
        ),
        (
            ListenerState::Responding,
            ListenerAction::Respond(Reply {
                state: VmState::Stopping,
                shutdown: true
            })
        )
    );
    assert_eq!(
        step(
            ListenerState::AwaitingRequest,
            ListenerEvent::Request(b"GET /vm/state HTTP/1.1".to_vec())
        ),
        (
            ListenerState::Responding,
            ListenerAction::Respond(Reply {
                state: VmState::Running,
                shutdown: false
            })
        )
    );
    assert_eq!(
        step(ListenerState::Responding, ListenerEvent::Responded),
        (ListenerState::AwaitingRequest, ListenerAction::Accept)
    );
    assert_eq!(
        step(ListenerState::AwaitingRequest, ListenerEvent::ReadFailed),
        (ListenerState::AwaitingRequest, ListenerAction::Accept)
    );
    // events that do not concern the state change nothing
    assert_eq!(
        step(ListenerState::Responding, ListenerEvent::BindFailed),
        (ListenerState::Responding, ListenerAction::Nothing)
    );
    assert_eq!(
        step(ListenerState::Failed, ListenerEvent::Start { listen: true }),
        (ListenerState::Failed, ListenerAction::Nothing)
    );
    assert_eq!(
        step(ListenerState::Idle, ListenerEvent::Request(b"POST".to_vec())),
        (ListenerState::Idle, ListenerAction::Nothing)
    );
}

#[test]
fn uri_grammar_agrees_with_the_pattern_on_one_line() {
    let pattern = regex::Regex::new(r"^(?P<scheme>none|tcp|unix)://(?P<value>.*)").unwrap();
    let inputs = [
        "unix:///tmp/path",
        "unix://",
        "unix:",
        "uni://path",
        "tcp://localhost:8080",
        "tcp://localhost",
        "tcp:///tmp/path",
        "none://",
        "none://ignored",
        "none",
        "foobar",
        "",
        "://",
        " unix:///tmp/path",
        "xunix:///tmp/path",
        "UNIX:///tmp/path",
        "unix:///tmp/päth",
        "nonetcp://x",
        "tcp://unix://",
    ];
    for input in inputs {
        let parsed = RestfulUri::from_str(input);
        match pattern.captures(input) {
            None => assert_eq!(parsed, Err(Error::InvalidSchemeInput), "{input:?}"),
            Some(cap) => {
                let value = &cap["value"];
                match &cap["scheme"] {
                    "none" => assert_eq!(parsed, Ok(RestfulUri::Disabled), "{input:?}"),
                    "unix" => {
                        if value.is_empty() {
                            assert_eq!(parsed, Err(Error::EmptyUnixPath), "{input:?}");
                        } else {
                            assert_eq!(parsed, Ok(RestfulUri::Unix(value.to_string())), "{input:?}");
                        }
                    }
                    _ => match parse_tcp_input(value) {
                        Ok((addr, port)) => assert_eq!(parsed, Ok(RestfulUri::Tcp(addr, port)), "{input:?}"),
                        Err(e) => assert_eq!(parsed, Err(e), "{input:?}"),
                    },
                }
            }
        }
    }
}
