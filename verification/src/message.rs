//! The three kinds of JSON-RPC 2.0 message, and the JSON object each one is.
//!
//! A message has no tag that says which kind it is. A JSON object is read as
//! the first of response, request and notification whose shape it fits: it
//! names no member that the shape lacks, names none twice, has every member
//! the shape requires, and each member's value has the type the shape gives it.

use crate::error::TransportError;
use crate::json::{
    member, members_view, names_distinct, Json, JsonNumber, JsonView, Members, NumberView,
};
use crate::text::str_eq;
use crate::wire::{parse, parsed, print, printed};
use vstd::prelude::*;

verus! {

/// The number that ties a response to its request.
pub type RequestId = u64;

/// A message of the protocol.
pub type Message = JsonRpcMessage;

/// The protocol version that a message carries.
#[derive(Debug, Clone, PartialEq, Eq)]
pub struct JsonRpcVersion(String);

/// A call that expects a response.
#[derive(Debug, Clone, PartialEq, Eq)]
pub struct JsonRpcRequest {
    pub id: RequestId,
    pub method: String,
    pub params: Option<Json>,
    pub jsonrpc: JsonRpcVersion,
}

/// A call that expects no response.
#[derive(Debug, Clone, PartialEq, Eq)]
pub struct JsonRpcNotification {
    pub method: String,
    pub params: Option<Json>,
    pub jsonrpc: JsonRpcVersion,
}

/// Why a request failed.
#[derive(Debug, Clone, PartialEq, Eq)]
pub struct JsonRpcError {
    pub code: i32,
    pub message: String,
    pub data: Option<Json>,
}

/// The outcome of a request.
#[derive(Debug, Clone, PartialEq, Eq)]
pub struct JsonRpcResponse {
    pub id: RequestId,
    pub result: Option<Json>,
    pub error: Option<JsonRpcError>,
    pub jsonrpc: JsonRpcVersion,
}

/// Any of the three kinds of message.
#[derive(Debug, Clone, PartialEq, Eq)]
pub enum JsonRpcMessage {
    Response(JsonRpcResponse),
    Request(JsonRpcRequest),
    Notification(JsonRpcNotification),
}

/// The version that a message carries unless it says otherwise.
pub open spec fn default_version() -> Seq<char> {
    "2.0"@
}

impl View for JsonRpcVersion {
    type V = Seq<char>;

    closed spec fn view(&self) -> Seq<char> {
        self.0@
    }
}

/// The mathematical value of a [`JsonRpcRequest`].
pub struct RequestView {
    pub id: u64,
    pub method: Seq<char>,
    pub params: Option<JsonView>,
    pub jsonrpc: Seq<char>,
}

/// The mathematical value of a [`JsonRpcNotification`].
pub struct NotificationView {
    pub method: Seq<char>,
    pub params: Option<JsonView>,
    pub jsonrpc: Seq<char>,
}

/// The mathematical value of a [`JsonRpcError`].
pub struct ErrorView {
    pub code: i32,
    pub message: Seq<char>,
    pub data: Option<JsonView>,
}

/// The mathematical value of a [`JsonRpcResponse`].
pub struct ResponseView {
    pub id: u64,
    pub result: Option<JsonView>,
    pub error: Option<ErrorView>,
    pub jsonrpc: Seq<char>,
}

/// The mathematical value of a [`JsonRpcMessage`].
pub enum MessageView {
    Response(ResponseView),
    Request(RequestView),
    Notification(NotificationView),
}

/// The view of a value that may be absent.
pub open spec fn option_view<T: View>(value: Option<T>) -> Option<T::V> {
    match value {
        Some(value) => Some(value@),
        None => None,
    }
}

impl View for JsonRpcRequest {
    type V = RequestView;

    open spec fn view(&self) -> RequestView {
        RequestView {
            id: self.id,
            method: self.method@,
            params: option_view(self.params),
            jsonrpc: self.jsonrpc@,
        }
    }
}

impl View for JsonRpcNotification {
    type V = NotificationView;

    open spec fn view(&self) -> NotificationView {
        NotificationView {
            method: self.method@,
            params: option_view(self.params),
            jsonrpc: self.jsonrpc@,
        }
    }
}

impl View for JsonRpcError {
    type V = ErrorView;

    open spec fn view(&self) -> ErrorView {
        ErrorView { code: self.code, message: self.message@, data: option_view(self.data) }
    }
}

impl View for JsonRpcResponse {
    type V = ResponseView;

    open spec fn view(&self) -> ResponseView {
        ResponseView {
            id: self.id,
            result: option_view(self.result),
            error: option_view(self.error),
            jsonrpc: self.jsonrpc@,
        }
    }
}

impl View for JsonRpcMessage {
    type V = MessageView;

    open spec fn view(&self) -> MessageView {
        match self {
            JsonRpcMessage::Response(response) => MessageView::Response(response@),
            JsonRpcMessage::Request(request) => MessageView::Request(request@),
            JsonRpcMessage::Notification(notification) => MessageView::Notification(notification@),
        }
    }
}

/// The view of a message or of the failure to read one.
pub open spec fn message_result_view(
    result: Result<JsonRpcMessage, TransportError>,
) -> Result<MessageView, TransportError> {
    match result {
        Ok(message) => Ok(message@),
        Err(error) => Err(error),
    }
}

// ---------------------------------------------------------------------------
// From JSON to a message
// ---------------------------------------------------------------------------

/// One of the three shapes that a JSON object is held against.
#[derive(Debug, Clone, Copy, PartialEq, Eq, Structural)]
pub enum Shape {
    Response,
    Request,
    Notification,
}

/// Whether a shape has a member of this name.
pub open spec fn allowed(shape: Shape, name: Seq<char>) -> bool {
    match shape {
        Shape::Response => name == "id"@ || name == "result"@ || name == "error"@ || name
            == "jsonrpc"@,
        Shape::Request => name == "id"@ || name == "method"@ || name == "params"@ || name
            == "jsonrpc"@,
        Shape::Notification => name == "method"@ || name == "params"@ || name == "jsonrpc"@,
    }
}

/// Whether every member's name is one that the shape has.
pub open spec fn only_allowed(shape: Shape, members: Members) -> bool {
    forall|i: int| 0 <= i < members.len() ==> allowed(shape, #[trigger] members[i].0)
}

/// Whether a JSON value is an object whose members the shape admits: each
/// name is one of the shape's, and none comes twice.
pub open spec fn fits(shape: Shape, json: JsonView) -> bool {
    &&& json is Object
    &&& names_distinct(json.members())
    &&& only_allowed(shape, json.members())
}

/// The value of a member that may be left out: absent where the object has
/// no such member, and where the member is `null`.
pub open spec fn optional(members: Members, name: Seq<char>) -> Option<JsonView> {
    match member(members, name) {
        Some(value) => if value is Null {
            None
        } else {
            Some(value)
        },
        None => None,
    }
}

/// The unsigned integer in a member: the default where the object has no
/// such member, nothing where its value is no integer that fits `u64`.
pub open spec fn u64_or(members: Members, name: Seq<char>, default: Option<u64>) -> Option<u64> {
    match member(members, name) {
        Some(value) => value.as_u64(),
        None => default,
    }
}

/// The integer in a member: the default where the object has no such member,
/// nothing where its value is no integer that fits `i32`.
pub open spec fn i32_or(members: Members, name: Seq<char>, default: Option<i32>) -> Option<i32> {
    match member(members, name) {
        Some(JsonView::Number(NumberView::Int(n))) => if i32::MIN <= n <= i32::MAX {
            Some(n as i32)
        } else {
            None
        },
        Some(_) => None,
        None => default,
    }
}

/// The string in a member: the default where the object has no such member,
/// nothing where its value is no string.
pub open spec fn text_or(members: Members, name: Seq<char>, default: Option<Seq<char>>) -> Option<
    Seq<char>,
> {
    match member(members, name) {
        Some(value) => value.as_str(),
        None => default,
    }
}

/// A JSON value read as an error: an object whose `code`, `message` and
/// `data` are an integer that fits `i32` (0 if left out), a string (empty if
/// left out) and any value. Members of other names are passed over; no name
/// may come twice.
pub open spec fn error_of(json: JsonView) -> Option<ErrorView> {
    let members = json.members();
    let code = i32_or(members, "code"@, Some(0i32));
    let message = text_or(members, "message"@, Some(Seq::empty()));
    if json is Object && names_distinct(members) && code is Some && message is Some {
        Some(ErrorView { code: code->0, message: message->0, data: optional(members, "data"@) })
    } else {
        None
    }
}

/// The error in a member that may be left out: the outer `None` where the
/// member's value is neither `null` nor an error.
pub open spec fn error_or_absent(members: Members, name: Seq<char>) -> Option<Option<ErrorView>> {
    match member(members, name) {
        Some(value) => if value is Null {
            Some(None)
        } else {
            match error_of(value) {
                Some(error) => Some(Some(error)),
                None => None,
            }
        },
        None => Some(None),
    }
}

/// A JSON value read as a response. Every member may be left out: `id` is
/// then 0 and `jsonrpc` is "2.0".
pub open spec fn response_of(json: JsonView) -> Option<ResponseView> {
    let members = json.members();
    let id = u64_or(members, "id"@, Some(0u64));
    let error = error_or_absent(members, "error"@);
    let jsonrpc = text_or(members, "jsonrpc"@, Some(default_version()));
    if fits(Shape::Response, json) && id is Some && error is Some && jsonrpc is Some {
        Some(
            ResponseView {
                id: id->0,
                result: optional(members, "result"@),
                error: error->0,
                jsonrpc: jsonrpc->0,
            },
        )
    } else {
        None
    }
}

/// A JSON value read as a request. Only `params` may be left out.
pub open spec fn request_of(json: JsonView) -> Option<RequestView> {
    let members = json.members();
    let id = u64_or(members, "id"@, None);
    let method = text_or(members, "method"@, None);
    let jsonrpc = text_or(members, "jsonrpc"@, None);
    if fits(Shape::Request, json) && id is Some && method is Some && jsonrpc is Some {
        Some(
            RequestView {
                id: id->0,
                method: method->0,
                params: optional(members, "params"@),
                jsonrpc: jsonrpc->0,
            },
        )
    } else {
        None
    }
}

/// A JSON value read as a notification. Every member may be left out:
/// `method` is then empty and `jsonrpc` is "2.0".
pub open spec fn notification_of(json: JsonView) -> Option<NotificationView> {
    let members = json.members();
    let method = text_or(members, "method"@, Some(Seq::empty()));
    let jsonrpc = text_or(members, "jsonrpc"@, Some(default_version()));
    if fits(Shape::Notification, json) && method is Some && jsonrpc is Some {
        Some(
            NotificationView {
                method: method->0,
                params: optional(members, "params"@),
                jsonrpc: jsonrpc->0,
            },
        )
    } else {
        None
    }
}

/// A JSON value read as a message: the first of response, request and
/// notification that it can be read as; malformed if it can be read as none.
pub open spec fn message_of(json: JsonView) -> Result<MessageView, TransportError> {
    if response_of(json) is Some {
        Ok(MessageView::Response(response_of(json)->0))
    } else if request_of(json) is Some {
        Ok(MessageView::Request(request_of(json)->0))
    } else if notification_of(json) is Some {
        Ok(MessageView::Notification(notification_of(json)->0))
    } else {
        Err(TransportError::MalformedMessage)
    }
}

// ---------------------------------------------------------------------------
// From a message to JSON
// ---------------------------------------------------------------------------

/// The JSON number of an integer.
pub open spec fn json_int(n: int) -> JsonView {
    JsonView::Number(NumberView::Int(n))
}

/// The member that holds a value that may be absent: none where it is.
pub open spec fn optional_member(name: Seq<char>, value: Option<JsonView>) -> Members {
    match value {
        Some(value) => seq![(name, value)],
        None => Seq::empty(),
    }
}

/// The JSON object of an error: `code`, `message`, then `data` if there is any.
pub open spec fn json_of_error(error: ErrorView) -> JsonView {
    JsonView::Object(
        seq![("code"@, json_int(error.code as int)), ("message"@, JsonView::String(error.message))]
            + optional_member("data"@, error.data),
    )
}

/// The JSON of an error that may be absent.
pub open spec fn json_of_error_option(error: Option<ErrorView>) -> Option<JsonView> {
    match error {
        Some(error) => Some(json_of_error(error)),
        None => None,
    }
}

/// The JSON object of a response: `id`, then `result` and `error` if there
/// are any, then `jsonrpc`.
pub open spec fn json_of_response(response: ResponseView) -> JsonView {
    JsonView::Object(
        seq![("id"@, json_int(response.id as int))] + optional_member("result"@, response.result)
            + optional_member("error"@, json_of_error_option(response.error))
            + seq![("jsonrpc"@, JsonView::String(response.jsonrpc))],
    )
}

/// The JSON object of a request: `id`, `method`, then `params` if there are
/// any, then `jsonrpc`.
pub open spec fn json_of_request(request: RequestView) -> JsonView {
    JsonView::Object(
        seq![("id"@, json_int(request.id as int)), ("method"@, JsonView::String(request.method))]
            + optional_member("params"@, request.params)
            + seq![("jsonrpc"@, JsonView::String(request.jsonrpc))],
    )
}

/// The JSON object of a notification: `method`, then `params` if there are
/// any, then `jsonrpc`.
pub open spec fn json_of_notification(notification: NotificationView) -> JsonView {
    JsonView::Object(
        seq![("method"@, JsonView::String(notification.method))]
            + optional_member("params"@, notification.params)
            + seq![("jsonrpc"@, JsonView::String(notification.jsonrpc))],
    )
}

/// The JSON object of a message.
pub open spec fn json_of(message: MessageView) -> JsonView {
    match message {
        MessageView::Response(response) => json_of_response(response),
        MessageView::Request(request) => json_of_request(request),
        MessageView::Notification(notification) => json_of_notification(notification),
    }
}

// ---------------------------------------------------------------------------
// Reading the members of an object
// ---------------------------------------------------------------------------

/// Whether a shape has a member of this name.
pub fn is_allowed(shape: Shape, name: &str) -> (b: bool)
    ensures
        b == allowed(shape, name@),
{
    match shape {
        Shape::Response => str_eq(name, "id") || str_eq(name, "result") || str_eq(name, "error")
            || str_eq(name, "jsonrpc"),
        Shape::Request => str_eq(name, "id") || str_eq(name, "method") || str_eq(name, "params")
            || str_eq(name, "jsonrpc"),
        Shape::Notification => str_eq(name, "method") || str_eq(name, "params") || str_eq(
            name,
            "jsonrpc",
        ),
    }
}

/// Whether a JSON value is an object whose members the shape admits.
pub fn admits(shape: Shape, json: &Json) -> (b: bool)
    ensures
        b == fits(shape, json@),
{
    match json.as_object() {
        None => false,
        Some(members) => {
            if !json.has_distinct_names() {
                return false;
            }
            proof {
                Json::lemma_object(*members);
            }
            let mut i: usize = 0;
            while i < members.len()
                invariant
                    i <= members.len(),
                    json@.members() == members_view(members@),
                    forall|k: int| 0 <= k < i ==> allowed(shape, #[trigger] json@.members()[k].0),
                decreases members.len() - i,
            {
                if !is_allowed(shape, members[i].0.as_str()) {
                    assert(!allowed(shape, json@.members()[i as int].0));
                    return false;
                }
                i += 1;
            }
            true
        },
    }
}

/// The value of a member that may be left out.
fn read_optional(json: &Json, name: &str) -> (value: Option<Json>)
    ensures
        option_view(value) == optional(json@.members(), name@),
{
    match json.get(name) {
        Some(value) => if value.is_null() {
            None
        } else {
            Some(value.clone())
        },
        None => None,
    }
}

/// The unsigned integer in a member, or the default where there is no such
/// member.
fn read_u64(json: &Json, name: &str, default: Option<u64>) -> (value: Option<u64>)
    ensures
        value == u64_or(json@.members(), name@, default),
{
    match json.get(name) {
        Some(value) => value.as_u64(),
        None => default,
    }
}

/// The integer in a member, or the default where there is no such member.
fn read_i32(json: &Json, name: &str, default: Option<i32>) -> (value: Option<i32>)
    ensures
        value == i32_or(json@.members(), name@, default),
{
    match json.get(name) {
        Some(value) => match value.as_i64() {
            Some(n) => if i32::MIN as i64 <= n && n <= i32::MAX as i64 {
                Some(n as i32)
            } else {
                None
            },
            None => None,
        },
        None => default,
    }
}

/// The string in a member, or the default where there is no such member.
fn read_text(json: &Json, name: &str, default: Option<&str>) -> (value: Option<String>)
    ensures
        option_view(value) == text_or(json@.members(), name@, option_view(default)),
{
    match json.get(name) {
        Some(value) => match value.as_str() {
            Some(text) => Some(text.to_owned()),
            None => None,
        },
        None => match default {
            Some(text) => Some(text.to_owned()),
            None => None,
        },
    }
}

/// The views of an error that may be left out, or of the failure to read it.
pub open spec fn error_reading_view(value: Option<Option<JsonRpcError>>) -> Option<
    Option<ErrorView>,
> {
    match value {
        Some(error) => Some(option_view(error)),
        None => None,
    }
}

/// The error in a member that may be left out.
fn read_error(json: &Json, name: &str) -> (value: Option<Option<JsonRpcError>>)
    ensures
        error_reading_view(value) == error_or_absent(json@.members(), name@),
{
    match json.get(name) {
        Some(value) => if value.is_null() {
            Some(None)
        } else {
            match JsonRpcError::from_json(value) {
                Some(error) => Some(Some(error)),
                None => None,
            }
        },
        None => Some(None),
    }
}

// ---------------------------------------------------------------------------
// The messages
// ---------------------------------------------------------------------------

impl JsonRpcVersion {
    /// The version as text.
    pub fn as_str(&self) -> (text: &str)
        ensures
            text@ == self@,
    {
        self.0.as_str()
    }
}

impl Default for JsonRpcVersion {
    /// Version "2.0".
    fn default() -> (version: Self)
        ensures
            version@ == default_version(),
    {
        JsonRpcVersion("2.0".to_owned())
    }
}

impl Default for JsonRpcError {
    /// Code 0, no message, no data.
    fn default() -> (error: Self)
        ensures
            error@ == (ErrorView { code: 0, message: Seq::empty(), data: None }),
    {
        JsonRpcError { code: 0, message: String::new(), data: None }
    }
}

impl Default for JsonRpcResponse {
    /// The response to request 0, with no result and no error.
    fn default() -> (response: Self)
        ensures
            response@ == (ResponseView {
                id: 0,
                result: None,
                error: None,
                jsonrpc: default_version(),
            }),
    {
        JsonRpcResponse { id: 0, result: None, error: None, jsonrpc: JsonRpcVersion::default() }
    }
}

impl Default for JsonRpcRequest {
    /// Request 0 of the empty method, with no parameters.
    fn default() -> (request: Self)
        ensures
            request@ == (RequestView {
                id: 0,
                method: Seq::empty(),
                params: None,
                jsonrpc: default_version(),
            }),
    {
        JsonRpcRequest {
            id: 0,
            method: String::new(),
            params: None,
            jsonrpc: JsonRpcVersion::default(),
        }
    }
}

impl Default for JsonRpcNotification {
    /// The notification of the empty method, with no parameters.
    fn default() -> (notification: Self)
        ensures
            notification@ == (NotificationView {
                method: Seq::empty(),
                params: None,
                jsonrpc: default_version(),
            }),
    {
        JsonRpcNotification {
            method: String::new(),
            params: None,
            jsonrpc: JsonRpcVersion::default(),
        }
    }
}

impl JsonRpcError {
    /// Reads a JSON value as an error.
    pub fn from_json(json: &Json) -> (error: Option<JsonRpcError>)
        ensures
            option_view(error) == error_of(json@),
    {
        if !json.is_object() || !json.has_distinct_names() {
            return None;
        }
        let code = read_i32(json, "code", Some(0));
        let message = read_text(json, "message", Some(""));
        proof {
            reveal_strlit("");
            assert(""@ =~= Seq::<char>::empty());
        }
        match (code, message) {
            (Some(code), Some(message)) => Some(
                JsonRpcError { code, message, data: read_optional(json, "data") },
            ),
            _ => None,
        }
    }
}

impl JsonRpcResponse {
    /// Reads a JSON value as a response.
    pub fn from_json(json: &Json) -> (response: Option<JsonRpcResponse>)
        ensures
            option_view(response) == response_of(json@),
    {
        if !admits(Shape::Response, json) {
            return None;
        }
        let id = read_u64(json, "id", Some(0));
        let error = read_error(json, "error");
        let jsonrpc = read_text(json, "jsonrpc", Some("2.0"));
        match (id, error, jsonrpc) {
            (Some(id), Some(error), Some(jsonrpc)) => Some(
                JsonRpcResponse {
                    id,
                    result: read_optional(json, "result"),
                    error,
                    jsonrpc: JsonRpcVersion(jsonrpc),
                },
            ),
            _ => None,
        }
    }
}

impl JsonRpcRequest {
    /// Reads a JSON value as a request.
    pub fn from_json(json: &Json) -> (request: Option<JsonRpcRequest>)
        ensures
            option_view(request) == request_of(json@),
    {
        if !admits(Shape::Request, json) {
            return None;
        }
        let id = read_u64(json, "id", None);
        let method = read_text(json, "method", None);
        let jsonrpc = read_text(json, "jsonrpc", None);
        match (id, method, jsonrpc) {
            (Some(id), Some(method), Some(jsonrpc)) => Some(
                JsonRpcRequest {
                    id,
                    method,
                    params: read_optional(json, "params"),
                    jsonrpc: JsonRpcVersion(jsonrpc),
                },
            ),
            _ => None,
        }
    }
}

impl JsonRpcNotification {
    /// Reads a JSON value as a notification.
    pub fn from_json(json: &Json) -> (notification: Option<JsonRpcNotification>)
        ensures
            option_view(notification) == notification_of(json@),
    {
        if !admits(Shape::Notification, json) {
            return None;
        }
        let method = read_text(json, "method", Some(""));
        proof {
            reveal_strlit("");
            assert(""@ =~= Seq::<char>::empty());
        }
        let jsonrpc = read_text(json, "jsonrpc", Some("2.0"));
        match (method, jsonrpc) {
            (Some(method), Some(jsonrpc)) => Some(
                JsonRpcNotification {
                    method,
                    params: read_optional(json, "params"),
                    jsonrpc: JsonRpcVersion(jsonrpc),
                },
            ),
            _ => None,
        }
    }
}

impl JsonRpcMessage {
    /// Reads a JSON value as a message: as the first of response, request
    /// and notification that it can be read as.
    pub fn from_json(json: &Json) -> (message: Result<JsonRpcMessage, TransportError>)
        ensures
            message_result_view(message) == message_of(json@),
    {
        match JsonRpcResponse::from_json(json) {
            Some(response) => Ok(JsonRpcMessage::Response(response)),
            None => match JsonRpcRequest::from_json(json) {
                Some(request) => Ok(JsonRpcMessage::Request(request)),
                None => match JsonRpcNotification::from_json(json) {
                    Some(notification) => Ok(JsonRpcMessage::Notification(notification)),
                    None => Err(TransportError::MalformedMessage),
                },
            },
        }
    }
}

// ---------------------------------------------------------------------------
// Writing the members of an object
// ---------------------------------------------------------------------------

/// Adds a member.
fn push_member(members: &mut Vec<(String, Json)>, name: &str, value: Json)
    ensures
        members_view(final(members)@) == members_view(old(members)@).push((name@, value@)),
{
    members.push((name.to_owned(), value));
    assert(members_view(members@) =~= members_view(old(members)@).push((name@, value@)));
}

/// Adds the member that holds a value, if there is a value.
fn push_optional(members: &mut Vec<(String, Json)>, name: &str, value: Option<Json>)
    ensures
        members_view(final(members)@) == members_view(old(members)@) + optional_member(
            name@,
            option_view(value),
        ),
{
    match value {
        Some(value) => {
            push_member(members, name, value);
            assert(members_view(members@) =~= members_view(old(members)@) + optional_member(
                name@,
                Some(value@),
            ));
        },
        None => {
            assert(members_view(members@) =~= members_view(old(members)@) + optional_member(
                name@,
                None,
            ));
        },
    }
}

/// A copy of a JSON value that may be absent.
fn clone_optional(value: &Option<Json>) -> (copy: Option<Json>)
    ensures
        option_view(copy) == option_view(*value),
{
    match value {
        Some(json) => Some(json.clone()),
        None => None,
    }
}

impl JsonRpcError {
    /// The JSON object of the error.
    pub fn to_json(&self) -> (json: Json)
        ensures
            json@ == json_of_error(self@),
    {
        let code = if self.code >= 0 {
            JsonNumber::PosInt(self.code as u64)
        } else {
            JsonNumber::NegInt(self.code as i64)
        };
        let mut members: Vec<(String, Json)> = Vec::new();
        push_member(&mut members, "code", Json::Number(code));
        push_member(&mut members, "message", Json::String(self.message.clone()));
        push_optional(&mut members, "data", clone_optional(&self.data));
        proof {
            Json::lemma_object(members);
            assert(members_view(members@) =~= json_of_error(self@).members());
        }
        Json::Object(members)
    }
}

impl JsonRpcResponse {
    /// The JSON object of the response.
    pub fn to_json(&self) -> (json: Json)
        ensures
            json@ == json_of_response(self@),
    {
        let error = match &self.error {
            Some(error) => Some(error.to_json()),
            None => None,
        };
        let mut members: Vec<(String, Json)> = Vec::new();
        push_member(&mut members, "id", Json::Number(JsonNumber::PosInt(self.id)));
        push_optional(&mut members, "result", clone_optional(&self.result));
        push_optional(&mut members, "error", error);
        push_member(&mut members, "jsonrpc", Json::String(self.jsonrpc.0.clone()));
        proof {
            Json::lemma_object(members);
            assert(members_view(members@) =~= json_of_response(self@).members());
        }
        Json::Object(members)
    }
}

impl JsonRpcRequest {
    /// The JSON object of the request.
    pub fn to_json(&self) -> (json: Json)
        ensures
            json@ == json_of_request(self@),
    {
        let mut members: Vec<(String, Json)> = Vec::new();
        push_member(&mut members, "id", Json::Number(JsonNumber::PosInt(self.id)));
        push_member(&mut members, "method", Json::String(self.method.clone()));
        push_optional(&mut members, "params", clone_optional(&self.params));
        push_member(&mut members, "jsonrpc", Json::String(self.jsonrpc.0.clone()));
        proof {
            Json::lemma_object(members);
            assert(members_view(members@) =~= json_of_request(self@).members());
        }
        Json::Object(members)
    }
}

impl JsonRpcNotification {
    /// The JSON object of the notification.
    pub fn to_json(&self) -> (json: Json)
        ensures
            json@ == json_of_notification(self@),
    {
        let mut members: Vec<(String, Json)> = Vec::new();
        push_member(&mut members, "method", Json::String(self.method.clone()));
        push_optional(&mut members, "params", clone_optional(&self.params));
        push_member(&mut members, "jsonrpc", Json::String(self.jsonrpc.0.clone()));
        proof {
            Json::lemma_object(members);
            assert(members_view(members@) =~= json_of_notification(self@).members());
        }
        Json::Object(members)
    }
}

impl JsonRpcMessage {
    /// The JSON object of the message.
    pub fn to_json(&self) -> (json: Json)
        ensures
            json@ == json_of(self@),
    {
        match self {
            JsonRpcMessage::Response(response) => response.to_json(),
            JsonRpcMessage::Request(request) => request.to_json(),
            JsonRpcMessage::Notification(notification) => notification.to_json(),
        }
    }
}

// ---------------------------------------------------------------------------
// Messages as text
// ---------------------------------------------------------------------------

/// What a text decodes to: the message that its JSON value is read as;
/// malformed where the text is no JSON value.
pub open spec fn decoded(text: Seq<char>) -> Result<MessageView, TransportError> {
    match parsed(text) {
        Some(json) => message_of(json),
        None => Err(TransportError::MalformedMessage),
    }
}

/// What a message encodes to: the text that its JSON object is written as.
pub open spec fn encoded(message: MessageView) -> Result<Seq<char>, TransportError> {
    match printed(json_of(message)) {
        Some(text) => Ok(text),
        None => Err(TransportError::EncodingFailure),
    }
}

/// The view of a text or of the failure to write one.
pub open spec fn text_result_view(result: Result<String, TransportError>) -> Result<
    Seq<char>,
    TransportError,
> {
    match result {
        Ok(text) => Ok(text@),
        Err(error) => Err(error),
    }
}

/// Decodes one message from JSON text.
pub fn decode(text: &str) -> (message: Result<Message, TransportError>)
    ensures
        message_result_view(message) == decoded(text@),
{
    match parse(text) {
        Some(json) => JsonRpcMessage::from_json(&json),
        None => Err(TransportError::MalformedMessage),
    }
}

/// Encodes a message as JSON text on one line. A member that is absent is
/// left out of the text.
pub fn encode(message: &Message) -> (text: Result<String, TransportError>)
    ensures
        text_result_view(text) == encoded(message@),
{
    let json = message.to_json();
    match print(&json) {
        Some(text) => Ok(text),
        None => Err(TransportError::EncodingFailure),
    }
}

} // verus!
