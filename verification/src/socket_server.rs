//! The WebSocket server's bookkeeping and request routing: per-client
//! statistics and subscriptions, and the decision of what a client's
//! message asks for.

use vstd::prelude::*;
use vstd::string::*;
use crate::text::{decimal, push_decimal, str_eq};

verus! {

/// What a client asks the data service for.
#[derive(Debug, Clone, PartialEq, Eq)]
pub enum WebSocketRequest {
    ReadFlowmeter { client_id: String, device_address: Option<u8>, request_id: String },
    StartStreaming { client_id: String, device_address: Option<u8>, request_id: String },
    StopStreaming { client_id: String, request_id: String },
    GetRecentReadings { client_id: String, limit: i64, request_id: String },
    GetStats { client_id: String, request_id: String },
}

/// A connected client: when it connected (Unix seconds), what was sent to
/// it, what it subscribes to and whether it streams readings.
#[derive(Debug, Clone, PartialEq, Eq)]
pub struct ClientInfo {
    pub address: String,
    pub connected_at: i64,
    pub bytes_sent: u64,
    pub messages_sent: u64,
    pub subscribed_endpoints: Vec<String>,
    pub is_streaming: bool,
    pub streaming_device: Option<u8>,
}

/// The endpoints every client subscribes to when it connects.
pub open spec fn default_subscriptions() -> Seq<Seq<char>> {
    seq!["/flowmeter/read"@, "/flowmeter/recent"@, "/flowmeter/stats"@, "/system/status"@]
}

/// The views of a list of strings.
pub open spec fn texts(v: Seq<String>) -> Seq<Seq<char>> {
    v.map_values(|s: String| s@)
}

impl ClientInfo {
    /// A client that just connected from `address` at `connected_at`: nothing
    /// sent yet, subscribed to the default endpoints, not streaming.
    pub fn new(address: String, connected_at: i64) -> (r: ClientInfo)
        ensures
            r.address == address,
            r.connected_at == connected_at,
            r.bytes_sent == 0,
            r.messages_sent == 0,
            texts(r.subscribed_endpoints@) == default_subscriptions(),
            !r.is_streaming,
            r.streaming_device is None,
    {
        let mut subscribed_endpoints: Vec<String> = Vec::new();
        subscribed_endpoints.push(String::from_str("/flowmeter/read"));
        subscribed_endpoints.push(String::from_str("/flowmeter/recent"));
        subscribed_endpoints.push(String::from_str("/flowmeter/stats"));
        subscribed_endpoints.push(String::from_str("/system/status"));
        assert(texts(subscribed_endpoints@) =~= default_subscriptions());
        ClientInfo {
            address,
            connected_at,
            bytes_sent: 0,
            messages_sent: 0,
            subscribed_endpoints,
            is_streaming: false,
            streaming_device: None,
        }
    }

    /// Accounts one message of `len` bytes sent to the client.
    pub fn record_sent(&mut self, len: usize)
        requires
            old(self).bytes_sent + len <= u64::MAX,
            old(self).messages_sent < u64::MAX,
        ensures
            *final(self) == (ClientInfo {
                bytes_sent: (old(self).bytes_sent + len) as u64,
                messages_sent: (old(self).messages_sent + 1) as u64,
                ..*old(self)
            }),
    {
        self.bytes_sent = self.bytes_sent + len as u64;
        self.messages_sent = self.messages_sent + 1;
    }

    /// Whether the client subscribes to `endpoint`.
    pub fn is_subscribed(&self, endpoint: &str) -> (r: bool)
        ensures
            r == texts(self.subscribed_endpoints@).contains(endpoint@),
    {
        let mut i: usize = 0;
        while i < self.subscribed_endpoints.len()
            invariant
                i <= self.subscribed_endpoints@.len(),
                forall|j: int| 0 <= j < i ==> self.subscribed_endpoints@[j]@ != endpoint@,
            decreases self.subscribed_endpoints@.len() - i,
        {
            if str_eq(self.subscribed_endpoints[i].as_str(), endpoint) {
                assert(texts(self.subscribed_endpoints@)[i as int] == endpoint@);
                return true;
            }
            i += 1;
        }
        proof {
            if texts(self.subscribed_endpoints@).contains(endpoint@) {
                let k = choose|k: int|
                    0 <= k < texts(self.subscribed_endpoints@).len() && texts(
                        self.subscribed_endpoints@,
                    )[k] == endpoint@;
                assert(self.subscribed_endpoints@[k]@ == endpoint@);
            }
        }
        false
    }

    /// The client starts streaming, from one device or from all.
    pub fn start_streaming(&mut self, device_address: Option<u8>)
        ensures
            *final(self) == (ClientInfo {
                is_streaming: true,
                streaming_device: device_address,
                ..*old(self)
            }),
    {
        self.is_streaming = true;
        self.streaming_device = device_address;
    }

    /// The client stops streaming. Returns whether it was streaming.
    pub fn stop_streaming(&mut self) -> (was_streaming: bool)
        ensures
            was_streaming == old(self).is_streaming,
            *final(self) == (ClientInfo {
                is_streaming: false,
                streaming_device: None,
                ..*old(self)
            }),
    {
        let was_streaming = self.is_streaming;
        self.is_streaming = false;
        self.streaming_device = None;
        was_streaming
    }
}

/// A `/flowmeter/stop` from the client with statistics `stats`: the client
/// stops streaming, and only when it was streaming does the data service get
/// a stop request for it (the reply then confirms the stop; otherwise it
/// says the client was not streaming).
pub fn client_stop_request(stats: &mut ClientInfo, client_id: &str, request_id: &String) -> (r:
    Option<WebSocketRequest>)
    ensures
        *final(stats) == (ClientInfo {
            is_streaming: false,
            streaming_device: None,
            ..*old(stats)
        }),
        old(stats).is_streaming ==> (r matches Some(
            WebSocketRequest::StopStreaming { client_id: c, request_id: q },
        ) && c@ == client_id@ && q == *request_id),
        !old(stats).is_streaming ==> r is None,
{
    if stats.stop_streaming() {
        Some(
            WebSocketRequest::StopStreaming {
                client_id: String::from_str(client_id),
                request_id: request_id.clone(),
            },
        )
    } else {
        None
    }
}

/// Whether a broadcast on `endpoint` goes to a client with statistics
/// `stats`: a client without statistics gets it; one with statistics only
/// if it subscribes to the endpoint.
pub fn should_receive(stats: Option<&ClientInfo>, endpoint: &str) -> (r: bool)
    ensures
        r == match stats {
            Some(s) => texts(s.subscribed_endpoints@).contains(endpoint@),
            None => true,
        },
{
    match stats {
        Some(s) => s.is_subscribed(endpoint),
        None => true,
    }
}

/// The fields of a client's JSON message that the server reads: `endpoint`,
/// `method` and `id` when they are strings, and `params.device_address` and
/// `params.limit` when they are unsigned integers.
#[derive(Debug, Clone, PartialEq, Eq)]
pub struct ClientMessage {
    pub endpoint: Option<String>,
    pub method: Option<String>,
    pub id: Option<String>,
    pub device_address: Option<u64>,
    pub limit: Option<u64>,
}

/// What the server does with a client's message.
#[derive(Debug, Clone, PartialEq, Eq)]
pub enum ClientAction {
    /// The message lacks `endpoint` or `method`.
    InvalidFormat,
    /// The endpoint is not one the server has.
    UnknownEndpoint { endpoint: String, request_id: String },
    /// The endpoint does not take the method.
    MethodNotSupported { endpoint: String, request_id: String },
    /// `/flowmeter/read`: start streaming, from one device or all.
    StartStreaming { device_address: Option<u8>, request_id: String },
    /// `/flowmeter/stop`: stop streaming.
    StopStreaming { request_id: String },
    /// `/flowmeter/recent`: the latest stored readings.
    RecentReadings { limit: i64, request_id: String },
    /// `/flowmeter/stats`: reading statistics.
    Stats { request_id: String },
    /// `/system/status`: server status.
    SystemStatus { request_id: String },
}

/// The text of an optional string.
pub open spec fn opt_text(o: Option<String>) -> Option<Seq<char>> {
    match o {
        Some(s) => Some(s@),
        None => None,
    }
}

/// The fields of a client message as plain values: `endpoint`, `method`,
/// `id`, `params.device_address` and `params.limit`.
pub type MessageFields = (
    Option<Seq<char>>,
    Option<Seq<char>>,
    Option<Seq<char>>,
    Option<u64>,
    Option<u64>,
);

/// The fields of a message.
pub open spec fn message_fields(msg: ClientMessage) -> MessageFields {
    (opt_text(msg.endpoint), opt_text(msg.method), opt_text(msg.id), msg.device_address, msg.limit)
}

/// The request id of a message: its `id`, or `unknown`.
pub open spec fn spec_request_id(f: MessageFields) -> Seq<char> {
    match f.2 {
        Some(id) => id,
        None => "unknown"@,
    }
}

/// The action a message with fields `f` asks for, described over texts.
pub open spec fn spec_route_fields(f: MessageFields, action: ClientAction) -> bool {
    let rid = spec_request_id(f);
    match (f.0, f.1) {
        (Some(e), Some(m)) => {
            if e == "/flowmeter/read"@ {
                if m == "GET"@ {
                    action matches ClientAction::StartStreaming { device_address, request_id }
                        && request_id@ == rid && device_address == match f.3 {
                        Some(d) => Some(d as u8),
                        None => None::<u8>,
                    }
                } else {
                    action matches ClientAction::MethodNotSupported { endpoint, request_id }
                        && endpoint@ == e && request_id@ == rid
                }
            } else if e == "/flowmeter/stop"@ {
                if m == "GET"@ || m == "POST"@ {
                    action matches ClientAction::StopStreaming { request_id } && request_id@ == rid
                } else {
                    action matches ClientAction::MethodNotSupported { endpoint, request_id }
                        && endpoint@ == e && request_id@ == rid
                }
            } else if e == "/flowmeter/recent"@ || e == "/flowmeter/stats"@ || e
                == "/system/status"@ {
                if m != "GET"@ {
                    action matches ClientAction::MethodNotSupported { endpoint, request_id }
                        && endpoint@ == e && request_id@ == rid
                } else if e == "/flowmeter/recent"@ {
                    action matches ClientAction::RecentReadings { limit, request_id }
                        && request_id@ == rid && limit == match f.4 {
                        Some(l) => l as i64,
                        None => 10i64,
                    }
                } else if e == "/flowmeter/stats"@ {
                    action matches ClientAction::Stats { request_id } && request_id@ == rid
                } else {
                    action matches ClientAction::SystemStatus { request_id } && request_id@ == rid
                }
            } else {
                action matches ClientAction::UnknownEndpoint { endpoint, request_id }
                    && endpoint@ == e && request_id@ == rid
            }
        },
        _ => action == ClientAction::InvalidFormat,
    }
}

/// The action a message asks for.
pub open spec fn spec_route(msg: ClientMessage, action: ClientAction) -> bool {
    spec_route_fields(message_fields(msg), action)
}

/// What `serde_json` reads from a client's text: the message's fields
/// (`endpoint`, `method` and `id` when they are strings, `params.device_address`
/// and `params.limit` when they are unsigned integers), or, when the text is
/// not JSON, the parser's error message.
pub uninterp spec fn spec_client_json(text: Seq<char>) -> Result<MessageFields, Seq<char>>;

/// Reads a client's text with `serde_json::from_str::<serde_json::Value>`
/// and picks the message's fields out of the value; the error's display text
/// when the text is not JSON. The contract ties the result to the text
/// through `spec_client_json`.
#[verifier::external_body]
fn read_client_message(text: &str) -> (r: Result<ClientMessage, String>)
    ensures
        match spec_client_json(text@) {
            Ok(f) => r matches Ok(m) && message_fields(m) == f,
            Err(e) => r matches Err(s) && s@ == e,
        },
{
    let v: serde_json::Value = serde_json::from_str(text).map_err(|e| e.to_string())?;
    let s = |k: &str| v.get(k).and_then(|x| x.as_str()).map(|x| x.to_string());
    let p = |k: &str| v.get("params").and_then(|q| q.get(k)).and_then(|x| x.as_u64());
    Ok(ClientMessage {
        endpoint: s("endpoint"),
        method: s("method"),
        id: s("id"),
        device_address: p("device_address"),
        limit: p("limit"),
    })
}

/// Decides what a client's text asks for: the routed action of the message
/// it holds, or the JSON parser's error message when it is not JSON.
pub fn route_client_text(text: &str) -> (r: Result<ClientAction, String>)
    ensures
        match spec_client_json(text@) {
            Ok(f) => r matches Ok(a) && spec_route_fields(f, a),
            Err(e) => r matches Err(s) && s@ == e,
        },
{
    match read_client_message(text) {
        Ok(msg) => Ok(route_client_message(&msg)),
        Err(e) => Err(e),
    }
}

/// The low byte of a device address given as an unsigned integer.
fn address_byte(d: u64) -> (r: u8)
    ensures
        r == d as u8,
{
    #[verifier::truncate]
    (d as u8)
}

/// A limit given as an unsigned integer, reinterpreted as signed.
fn limit_value(l: u64) -> (r: i64)
    ensures
        r == l as i64,
{
    #[verifier::truncate]
    (l as i64)
}

/// Decides what a client's message asks for. Every endpoint takes `GET`;
/// `/flowmeter/stop` also takes `POST`. A missing `params.limit` means 10.
pub fn route_client_message(msg: &ClientMessage) -> (r: ClientAction)
    ensures
        spec_route(*msg, r),
{
    let request_id = match &msg.id {
        Some(id) => id.clone(),
        None => String::from_str("unknown"),
    };
    let (endpoint, method) = match (&msg.endpoint, &msg.method) {
        (Some(e), Some(m)) => (e, m),
        _ => {
            return ClientAction::InvalidFormat;
        },
    };
    let is_get = str_eq(method.as_str(), "GET");
    if str_eq(endpoint.as_str(), "/flowmeter/read") {
        if is_get {
            let device_address = match msg.device_address {
                Some(d) => Some(address_byte(d)),
                None => None,
            };
            ClientAction::StartStreaming { device_address, request_id }
        } else {
            ClientAction::MethodNotSupported { endpoint: endpoint.clone(), request_id }
        }
    } else if str_eq(endpoint.as_str(), "/flowmeter/stop") {
        if is_get || str_eq(method.as_str(), "POST") {
            ClientAction::StopStreaming { request_id }
        } else {
            ClientAction::MethodNotSupported { endpoint: endpoint.clone(), request_id }
        }
    } else if str_eq(endpoint.as_str(), "/flowmeter/recent") {
        if is_get {
            let limit = match msg.limit {
                Some(l) => limit_value(l),
                None => 10,
            };
            ClientAction::RecentReadings { limit, request_id }
        } else {
            ClientAction::MethodNotSupported { endpoint: endpoint.clone(), request_id }
        }
    } else if str_eq(endpoint.as_str(), "/flowmeter/stats") {
        if is_get {
            ClientAction::Stats { request_id }
        } else {
            ClientAction::MethodNotSupported { endpoint: endpoint.clone(), request_id }
        }
    } else if str_eq(endpoint.as_str(), "/system/status") {
        if is_get {
            ClientAction::SystemStatus { request_id }
        } else {
            ClientAction::MethodNotSupported { endpoint: endpoint.clone(), request_id }
        }
    } else {
        ClientAction::UnknownEndpoint { endpoint: endpoint.clone(), request_id }
    }
}

/// The confirmation text for a client that starts streaming.
pub open spec fn spec_streaming_started_message(device_address: Option<u8>) -> Seq<char> {
    "Real-time streaming started"@ + match device_address {
        Some(a) => " from device "@ + decimal(a as nat),
        None => Seq::<char>::empty(),
    } + ". Use /flowmeter/stop to stop."@
}

/// The confirmation text for a client that starts streaming.
pub fn streaming_started_message(device_address: Option<u8>) -> (r: String)
    ensures
        r@ == spec_streaming_started_message(device_address),
{
    let mut r = String::from_str("Real-time streaming started");
    match device_address {
        Some(a) => {
            r.append(" from device ");
            push_decimal(&mut r, a as u64);
        },
        None => {},
    }
    r.append(". Use /flowmeter/stop to stop.");
    assert(r@ =~= spec_streaming_started_message(device_address));
    r
}

/// The request the server passes to the data service for an action of the
/// client `client_id`, if the action needs the data service.
pub fn request_for(action: &ClientAction, client_id: &str) -> (r: Option<WebSocketRequest>)
    ensures
        match *action {
            ClientAction::StartStreaming { device_address, request_id } => r matches Some(
                WebSocketRequest::StartStreaming { client_id: c, device_address: d, request_id: q },
            ) && c@ == client_id@ && d == device_address && q == request_id,
            ClientAction::StopStreaming { request_id } => r matches Some(
                WebSocketRequest::StopStreaming { client_id: c, request_id: q },
            ) && c@ == client_id@ && q == request_id,
            ClientAction::RecentReadings { limit, request_id } => r matches Some(
                WebSocketRequest::GetRecentReadings { client_id: c, limit: l, request_id: q },
            ) && c@ == client_id@ && l == limit && q == request_id,
            ClientAction::Stats { request_id } => r matches Some(
                WebSocketRequest::GetStats { client_id: c, request_id: q },
            ) && c@ == client_id@ && q == request_id,
            _ => r is None,
        },
{
    match action {
        ClientAction::StartStreaming { device_address, request_id } => Some(
            WebSocketRequest::StartStreaming {
                client_id: String::from_str(client_id),
                device_address: *device_address,
                request_id: request_id.clone(),
            },
        ),
        ClientAction::StopStreaming { request_id } => Some(
            WebSocketRequest::StopStreaming {
                client_id: String::from_str(client_id),
                request_id: request_id.clone(),
            },
        ),
        ClientAction::RecentReadings { limit, request_id } => Some(
            WebSocketRequest::GetRecentReadings {
                client_id: String::from_str(client_id),
                limit: *limit,
                request_id: request_id.clone(),
            },
        ),
        ClientAction::Stats { request_id } => Some(
            WebSocketRequest::GetStats {
                client_id: String::from_str(client_id),
                request_id: request_id.clone(),
            },
        ),
        _ => None,
    }
}

/// The request id a message carries: its `id`, or `unknown` without one.
pub open spec fn carried_request_id(msg: ClientMessage) -> Seq<char> {
    match msg.id {
        Some(i) => i@,
        None => "unknown"@,
    }
}

proof fn lemma_route_texts_distinct()
    ensures
        "/flowmeter/read"@ != "/flowmeter/stop"@,
        "/flowmeter/read"@ != "/flowmeter/recent"@,
        "/flowmeter/read"@ != "/flowmeter/stats"@,
        "/flowmeter/read"@ != "/system/status"@,
        "/flowmeter/stop"@ != "/flowmeter/recent"@,
        "/flowmeter/stop"@ != "/flowmeter/stats"@,
        "/flowmeter/stop"@ != "/system/status"@,
        "/flowmeter/recent"@ != "/flowmeter/stats"@,
        "/flowmeter/recent"@ != "/system/status"@,
        "/flowmeter/stats"@ != "/system/status"@,
        "GET"@ != "POST"@,
{
    reveal_strlit("/flowmeter/read");
    reveal_strlit("/flowmeter/stop");
    reveal_strlit("/flowmeter/recent");
    reveal_strlit("/flowmeter/stats");
    reveal_strlit("/system/status");
    reveal_strlit("GET");
    reveal_strlit("POST");
    assert("/flowmeter/read"@[11] != "/flowmeter/stop"@[11]);
    assert("/flowmeter/read"@.len() != "/flowmeter/recent"@.len());
    assert("/flowmeter/stop"@.len() != "/flowmeter/stats"@.len());
    assert("/flowmeter/read"@.len() != "/flowmeter/stats"@.len());
    assert("/flowmeter/stop"@.len() != "/flowmeter/recent"@.len());
    assert("/flowmeter/recent"@[12] != "/flowmeter/stats"@[12]);
    assert("GET"@.len() != "POST"@.len());
}

/// A `GET` or a `POST` to `/flowmeter/stop` stops the client's streaming,
/// under the request id the message carries; it is never refused.
pub proof fn lemma_stop_takes_get_and_post(msg: ClientMessage, action: ClientAction)
    requires
        msg.endpoint matches Some(e) && e@ == "/flowmeter/stop"@,
        msg.method matches Some(m) && (m@ == "GET"@ || m@ == "POST"@),
        spec_route(msg, action),
    ensures
        action matches ClientAction::StopStreaming { request_id } && request_id@
            == carried_request_id(msg),
{
    lemma_route_texts_distinct();
}

/// Every endpoint takes `GET`, and a `GET` asks for what its endpoint
/// serves: `/flowmeter/read` starts streaming (from the device given, if
/// any), `/flowmeter/stop` stops it, `/flowmeter/recent` asks for the latest
/// readings (10 unless a limit is given), `/flowmeter/stats` for statistics
/// and `/system/status` for the server status; each under the request id the
/// message carries.
pub proof fn lemma_get_routes_by_endpoint(msg: ClientMessage, action: ClientAction)
    requires
        msg.endpoint is Some,
        msg.method matches Some(m) && m@ == "GET"@,
        spec_route(msg, action),
    ensures
        msg.endpoint->Some_0@ == "/flowmeter/read"@ ==> (action matches ClientAction::StartStreaming {
            device_address,
            request_id,
        } && request_id@ == carried_request_id(msg) && device_address == match msg.device_address {
            Some(d) => Some(d as u8),
            None => None::<u8>,
        }),
        msg.endpoint->Some_0@ == "/flowmeter/stop"@ ==> (action matches ClientAction::StopStreaming {
            request_id,
        } && request_id@ == carried_request_id(msg)),
        msg.endpoint->Some_0@ == "/flowmeter/recent"@ ==> (
        action matches ClientAction::RecentReadings { limit, request_id } && request_id@
            == carried_request_id(msg) && limit == match msg.limit {
            Some(l) => l as i64,
            None => 10i64,
        }),
        msg.endpoint->Some_0@ == "/flowmeter/stats"@ ==> (action matches ClientAction::Stats {
            request_id,
        } && request_id@ == carried_request_id(msg)),
        msg.endpoint->Some_0@ == "/system/status"@ ==> (action matches ClientAction::SystemStatus {
            request_id,
        } && request_id@ == carried_request_id(msg)),
        !(action is MethodNotSupported),
        !(action is InvalidFormat),
{
    lemma_route_texts_distinct();
}

/// A message without an endpoint or without a method is an invalid format.
pub proof fn lemma_missing_fields_are_invalid(msg: ClientMessage, action: ClientAction)
    requires
        msg.endpoint is None || msg.method is None,
        spec_route(msg, action),
    ensures
        action == ClientAction::InvalidFormat,
{
}

} // verus!
