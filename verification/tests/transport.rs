use jsonrpc_transport::error::TransportError;
use jsonrpc_transport::json::Json;
use jsonrpc_transport::message::{
    JsonRpcMessage, JsonRpcRequest, JsonRpcResponse, JsonRpcVersion,
};
use jsonrpc_transport::transport::{frame, unframe, StdioTransport};

#[test]
fn send_gives_the_line_to_write() {
    let transport = StdioTransport;
    let response = JsonRpcResponse {
        id: 1,
        result: Some(Json::String("ok".to_string())),
        error: None,
        jsonrpc: JsonRpcVersion::default(),
    };
    let line = transport.send(&JsonRpcMessage::Response(response));
    assert_eq!(line, Ok("{\"id\":1,\"result\":\"ok\",\"jsonrpc\":\"2.0\"}\n".to_string()));
}

#[test]
fn receive_reads_the_message_in_a_line() {
    let transport = StdioTransport;
    let message = transport.receive("{\"id\":1,\"method\":\"ping\",\"jsonrpc\":\"2.0\"}\n");
    match message {
        Ok(JsonRpcMessage::Request(request)) => {
            assert_eq!(request.id, 1);
            assert_eq!(request.method, "ping");
            assert_eq!(request.params, None);
            assert_eq!(request.jsonrpc.as_str(), "2.0");
        }
        other => panic!("expected a request, got {:?}", other),
    }
}

#[test]
fn receive_takes_a_last_line_without_line_feed() {
    let transport = StdioTransport;
    let expected = JsonRpcRequest {
        id: 2,
        method: "m".to_string(),
        params: None,
        jsonrpc: JsonRpcVersion::default(),
    };
    assert_eq!(
        transport.receive("{\"id\":2,\"method\":\"m\",\"jsonrpc\":\"2.0\"}"),
        Ok(JsonRpcMessage::Request(expected))
    );
}

#[test]
fn receive_fails_at_the_end_of_input() {
    assert_eq!(StdioTransport.receive(""), Err(TransportError::ChannelFailure));
}

#[test]
fn receive_rejects_a_blank_or_broken_line() {
    assert_eq!(StdioTransport.receive("\n"), Err(TransportError::MalformedMessage));
    assert_eq!(StdioTransport.receive("{\"id\":1\n"), Err(TransportError::MalformedMessage));
    assert_eq!(
        StdioTransport.receive("{\"id\":1}\n{\"id\":2}\n"),
        Err(TransportError::MalformedMessage)
    );
}

#[test]
fn receive_reads_what_send_wrote() {
    let transport = StdioTransport::default();
    let request = JsonRpcRequest {
        id: 41,
        method: "tools/list".to_string(),
        params: Some(Json::Array(vec![Json::Bool(true), Json::Null])),
        jsonrpc: JsonRpcVersion::default(),
    };
    let message = JsonRpcMessage::Request(request);
    let line = transport.send(&message).unwrap();
    assert!(line.ends_with('\n'));
    assert_eq!(line.matches('\n').count(), 1);
    assert_eq!(transport.receive(&line), Ok(message));
}

#[test]
fn open_and_close_do_nothing() {
    let transport = StdioTransport;
    assert_eq!(transport.open(), Ok(()));
    assert_eq!(transport.open(), Ok(()));
    assert_eq!(transport.close(), Ok(()));
}

#[test]
fn failures_are_described() {
    assert_eq!(TransportError::MalformedMessage.describe(), "malformed message");
    assert_eq!(TransportError::ChannelFailure.describe(), "channel failure");
    assert_eq!(TransportError::EncodingFailure.describe(), "encoding failure");
}

#[test]
fn frame_ends_a_text_with_one_line_feed() {
    assert_eq!(frame("{}".to_string()), "{}\n");
    assert_eq!(frame(String::new()), "\n");
    assert_eq!(frame("a\n".to_string()), "a\n\n");
}

#[test]
fn unframe_takes_the_line_feed_off() {
    assert_eq!(unframe(""), None);
    assert_eq!(unframe("\n"), Some(""));
    assert_eq!(unframe("{}\n"), Some("{}"));
    assert_eq!(unframe("{}"), Some("{}"));
    assert_eq!(unframe("{}\n\n"), Some("{}\n"));
    assert_eq!(unframe("{}\r\n"), Some("{}\r"));
}
