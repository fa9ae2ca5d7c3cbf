use ipc_flowmeter::socket_server::{
    client_stop_request, request_for, route_client_message, route_client_text, should_receive,
    streaming_started_message, ClientAction, ClientInfo, ClientMessage, WebSocketRequest,
};

fn msg(endpoint: Option<&str>, method: Option<&str>, id: Option<&str>) -> ClientMessage {
    ClientMessage {
        endpoint: endpoint.map(|s| s.to_string()),
        method: method.map(|s| s.to_string()),
        id: id.map(|s| s.to_string()),
        device_address: None,
        limit: None,
    }
}

#[test]
fn new_client_defaults() {
    let c = ClientInfo::new("127.0.0.1:5000".to_string(), 1_700_000_000);
    assert_eq!(c.bytes_sent, 0);
    assert_eq!(c.messages_sent, 0);
    assert_eq!(
        c.subscribed_endpoints,
        vec!["/flowmeter/read", "/flowmeter/recent", "/flowmeter/stats", "/system/status"]
    );
    assert!(!c.is_streaming);
    assert!(c.is_subscribed("/flowmeter/stats"));
    assert!(!c.is_subscribed("/flowmeter/stop"));
}

#[test]
fn client_accounting_and_streaming() {
    let mut c = ClientInfo::new("a".to_string(), 0);
    c.record_sent(120);
    c.record_sent(30);
    assert_eq!((c.bytes_sent, c.messages_sent), (150, 2));
    c.start_streaming(Some(3));
    assert!(c.is_streaming);
    assert_eq!(c.streaming_device, Some(3));
    assert!(c.stop_streaming());
    assert!(!c.stop_streaming());
    assert_eq!(c.streaming_device, None);
}

#[test]
fn broadcast_recipients() {
    let c = ClientInfo::new("a".to_string(), 0);
    assert!(should_receive(Some(&c), "/flowmeter/read"));
    assert!(!should_receive(Some(&c), "/other"));
    assert!(should_receive(None, "/other"));
}

#[test]
fn routing_of_endpoints() {
    let mut m = msg(Some("/flowmeter/read"), Some("GET"), Some("r1"));
    m.device_address = Some(258);
    assert_eq!(
        route_client_message(&m),
        ClientAction::StartStreaming { device_address: Some(2), request_id: "r1".to_string() }
    );
    assert_eq!(
        route_client_message(&msg(Some("/flowmeter/read"), Some("POST"), None)),
        ClientAction::MethodNotSupported { endpoint: "/flowmeter/read".to_string(), request_id: "unknown".to_string() }
    );
    assert_eq!(
        route_client_message(&msg(Some("/flowmeter/stop"), Some("POST"), Some("s"))),
        ClientAction::StopStreaming { request_id: "s".to_string() }
    );
    assert_eq!(
        route_client_message(&msg(Some("/flowmeter/stop"), Some("DELETE"), Some("s"))),
        ClientAction::MethodNotSupported { endpoint: "/flowmeter/stop".to_string(), request_id: "s".to_string() }
    );
    assert_eq!(
        route_client_message(&msg(Some("/flowmeter/recent"), Some("GET"), Some("q"))),
        ClientAction::RecentReadings { limit: 10, request_id: "q".to_string() }
    );
    let mut m = msg(Some("/flowmeter/recent"), Some("GET"), Some("q"));
    m.limit = Some(u64::MAX);
    assert_eq!(route_client_message(&m), ClientAction::RecentReadings { limit: -1, request_id: "q".to_string() });
    assert_eq!(
        route_client_message(&msg(Some("/flowmeter/stats"), Some("GET"), Some("t"))),
        ClientAction::Stats { request_id: "t".to_string() }
    );
    assert_eq!(
        route_client_message(&msg(Some("/system/status"), Some("GET"), Some("u"))),
        ClientAction::SystemStatus { request_id: "u".to_string() }
    );
    assert_eq!(
        route_client_message(&msg(Some("/system/status"), Some("PUT"), Some("u"))),
        ClientAction::MethodNotSupported { endpoint: "/system/status".to_string(), request_id: "u".to_string() }
    );
    assert_eq!(
        route_client_message(&msg(Some("/nope"), Some("GET"), Some("x"))),
        ClientAction::UnknownEndpoint { endpoint: "/nope".to_string(), request_id: "x".to_string() }
    );
    assert_eq!(route_client_message(&msg(None, Some("GET"), Some("x"))), ClientAction::InvalidFormat);
    assert_eq!(route_client_message(&msg(Some("/flowmeter/read"), None, None)), ClientAction::InvalidFormat);
}

#[test]
fn requests_passed_to_the_data_service() {
    let a = ClientAction::StartStreaming { device_address: None, request_id: "r".to_string() };
    assert_eq!(
        request_for(&a, "c1"),
        Some(WebSocketRequest::StartStreaming { client_id: "c1".to_string(), device_address: None, request_id: "r".to_string() })
    );
    let a = ClientAction::RecentReadings { limit: 4, request_id: "r".to_string() };
    assert_eq!(
        request_for(&a, "c1"),
        Some(WebSocketRequest::GetRecentReadings { client_id: "c1".to_string(), limit: 4, request_id: "r".to_string() })
    );
    assert_eq!(request_for(&ClientAction::SystemStatus { request_id: "r".to_string() }, "c1"), None);
    assert_eq!(request_for(&ClientAction::InvalidFormat, "c1"), None);
}

#[test]
fn streaming_messages() {
    assert_eq!(streaming_started_message(None), "Real-time streaming started. Use /flowmeter/stop to stop.");
    assert_eq!(
        streaming_started_message(Some(4)),
        "Real-time streaming started from device 4. Use /flowmeter/stop to stop."
    );
}

#[test]
fn client_text_is_read_and_routed() {
    let text = r#"{"endpoint":"/flowmeter/recent","method":"GET","id":"r1","params":{"limit":5}}"#;
    assert_eq!(
        route_client_text(text),
        Ok(ClientAction::RecentReadings { limit: 5, request_id: "r1".to_string() })
    );
    let text = r#"{"endpoint":"/flowmeter/read","method":"GET","params":{"device_address":3}}"#;
    assert_eq!(
        route_client_text(text),
        Ok(ClientAction::StartStreaming { device_address: Some(3), request_id: "unknown".to_string() })
    );
    let text = r#"{"endpoint":"/flowmeter/read","method":"GET","params":{"device_address":"3"}}"#;
    assert_eq!(
        route_client_text(text),
        Ok(ClientAction::StartStreaming { device_address: None, request_id: "unknown".to_string() })
    );
    assert_eq!(route_client_text(r#"{"endpoint":"/flowmeter/read"}"#), Ok(ClientAction::InvalidFormat));
    assert_eq!(route_client_text(r#"{"endpoint":7,"method":"GET"}"#), Ok(ClientAction::InvalidFormat));
}

#[test]
fn client_text_that_is_not_json_gives_the_parser_message() {
    let e = route_client_text("hello").unwrap_err();
    assert!(e.contains("line 1 column 1"), "{}", e);
    assert!(route_client_text(r#"{"endpoint":"#).is_err());
}

#[test]
fn stop_request_only_for_a_streaming_client() {
    let mut c = ClientInfo::new("a".to_string(), 1);
    assert_eq!(client_stop_request(&mut c, "a", &"q".to_string()), None);
    c.start_streaming(Some(2));
    assert_eq!(
        client_stop_request(&mut c, "a", &"q".to_string()),
        Some(WebSocketRequest::StopStreaming { client_id: "a".to_string(), request_id: "q".to_string() })
    );
    assert!(!c.is_streaming);
    assert_eq!(c.streaming_device, None);
}
