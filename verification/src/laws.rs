//! What holds of every message and of every JSON value that is read as one.

use crate::error::TransportError;
use crate::json::{has_member, lemma_member_found, member_from, JsonView};
use crate::message::{
    allowed, decoded, default_version, encoded, error_of, fits, json_int, json_of, json_of_error,
    json_of_notification, json_of_request, json_of_response, message_of, notification_of,
    request_of, response_of, ErrorView, MessageView, NotificationView, RequestView, ResponseView,
    Shape,
};
use crate::text::line_feed;
use crate::transport::{received, sent};
use crate::wire::parsed;
use vstd::prelude::*;

verus! {

/// A value that may be absent, as it is read back: a `null` reads as absent.
pub open spec fn present(value: Option<JsonView>) -> Option<JsonView> {
    match value {
        Some(value) => if value is Null {
            None
        } else {
            Some(value)
        },
        None => None,
    }
}

/// An error as it is read back: `data` that is `null` reads as absent.
pub open spec fn normal_error(error: ErrorView) -> ErrorView {
    ErrorView { code: error.code, message: error.message, data: present(error.data) }
}

/// A message as it is read back: each of `params`, `result`, `error` and
/// `data` that is `null` reads as absent.
pub open spec fn normal(message: MessageView) -> MessageView {
    match message {
        MessageView::Response(response) => MessageView::Response(
            ResponseView {
                id: response.id,
                result: present(response.result),
                error: match response.error {
                    Some(error) => Some(normal_error(error)),
                    None => None,
                },
                jsonrpc: response.jsonrpc,
            },
        ),
        MessageView::Request(request) => MessageView::Request(
            RequestView {
                id: request.id,
                method: request.method,
                params: present(request.params),
                jsonrpc: request.jsonrpc,
            },
        ),
        MessageView::Notification(notification) => MessageView::Notification(
            NotificationView {
                method: notification.method,
                params: present(notification.params),
                jsonrpc: notification.jsonrpc,
            },
        ),
    }
}

/// Whether a name is one that some message shape has.
pub open spec fn known(name: Seq<char>) -> bool {
    allowed(Shape::Response, name) || allowed(Shape::Request, name)
}

/// The names of the members differ from one another.
pub proof fn lemma_names_differ()
    ensures
        "id"@ != "method"@,
        "id"@ != "params"@,
        "id"@ != "jsonrpc"@,
        "id"@ != "result"@,
        "id"@ != "error"@,
        "method"@ != "params"@,
        "method"@ != "jsonrpc"@,
        "method"@ != "result"@,
        "method"@ != "error"@,
        "params"@ != "jsonrpc"@,
        "params"@ != "result"@,
        "params"@ != "error"@,
        "jsonrpc"@ != "result"@,
        "jsonrpc"@ != "error"@,
        "result"@ != "error"@,
        "code"@ != "message"@,
        "code"@ != "data"@,
        "message"@ != "data"@,
{
    reveal_strlit("id");
    reveal_strlit("method");
    reveal_strlit("params");
    reveal_strlit("jsonrpc");
    reveal_strlit("result");
    reveal_strlit("error");
    reveal_strlit("code");
    reveal_strlit("message");
    reveal_strlit("data");
    assert("id"@.len() == 2);
    assert("error"@.len() == 5);
    assert("jsonrpc"@.len() == 7);
    assert("method"@.len() == 6);
    assert("code"@.len() == 4);
    assert("message"@.len() == 7);
    assert("method"@[0] != "params"@[0]);
    assert("method"@[0] != "result"@[0]);
    assert("params"@[0] != "result"@[0]);
    assert("code"@[0] != "data"@[0]);
}

/// An error that is written as JSON is read back as itself, but for `data`
/// that is `null`.
pub proof fn lemma_error_round_trip(error: ErrorView)
    ensures
        error_of(json_of_error(error)) == Some(normal_error(error)),
{
    lemma_names_differ();
    reveal_with_fuel(member_from, 4);
    let code: (Seq<char>, JsonView) = ("code"@, json_int(error.code as int));
    let message: (Seq<char>, JsonView) = ("message"@, JsonView::String(error.message));
    let members = json_of_error(error).members();
    match error.data {
        Some(data) => {
            assert(members =~= seq![code, message, ("data"@, data)]);
        },
        None => {
            assert(members =~= seq![code, message]);
        },
    }
}

/// A request that is written as JSON is read back as a request.
proof fn lemma_request_round_trip(request: RequestView)
    ensures
        message_of(json_of_request(request)) == Ok::<MessageView, TransportError>(
            normal(MessageView::Request(request)),
        ),
{
    lemma_names_differ();
    reveal_with_fuel(member_from, 5);
    let json = json_of_request(request);
    let members = json.members();
    let id: (Seq<char>, JsonView) = ("id"@, json_int(request.id as int));
    let method: (Seq<char>, JsonView) = ("method"@, JsonView::String(request.method));
    let jsonrpc: (Seq<char>, JsonView) = ("jsonrpc"@, JsonView::String(request.jsonrpc));
    match request.params {
        Some(params) => {
            assert(members =~= seq![id, method, ("params"@, params), jsonrpc]);
        },
        None => {
            assert(members =~= seq![id, method, jsonrpc]);
        },
    }
    assert(!allowed(Shape::Response, members[1].0));
    assert(!fits(Shape::Response, json));
    assert(fits(Shape::Request, json));
}

/// A notification that is written as JSON is read back as a notification.
proof fn lemma_notification_round_trip(notification: NotificationView)
    ensures
        message_of(json_of_notification(notification)) == Ok::<MessageView, TransportError>(
            normal(MessageView::Notification(notification)),
        ),
{
    lemma_names_differ();
    reveal_with_fuel(member_from, 4);
    let json = json_of_notification(notification);
    let members = json.members();
    let method: (Seq<char>, JsonView) = ("method"@, JsonView::String(notification.method));
    let jsonrpc: (Seq<char>, JsonView) = ("jsonrpc"@, JsonView::String(notification.jsonrpc));
    match notification.params {
        Some(params) => {
            assert(members =~= seq![method, ("params"@, params), jsonrpc]);
        },
        None => {
            assert(members =~= seq![method, jsonrpc]);
        },
    }
    assert(!allowed(Shape::Response, members[0].0));
    assert(!allowed(Shape::Request, members[0].0) || member_from(members, "id"@, 0) is None);
    assert(!fits(Shape::Response, json));
    assert(request_of(json) is None);
    assert(fits(Shape::Notification, json));
}

/// A response that is written as JSON is read back as a response.
proof fn lemma_response_round_trip(response: ResponseView)
    ensures
        message_of(json_of_response(response)) == Ok::<MessageView, TransportError>(
            normal(MessageView::Response(response)),
        ),
{
    lemma_names_differ();
    reveal_with_fuel(member_from, 5);
    let json = json_of_response(response);
    let members = json.members();
    let id: (Seq<char>, JsonView) = ("id"@, json_int(response.id as int));
    let jsonrpc: (Seq<char>, JsonView) = ("jsonrpc"@, JsonView::String(response.jsonrpc));
    match response.error {
        Some(error) => {
            lemma_error_round_trip(error);
            let written: (Seq<char>, JsonView) = ("error"@, json_of_error(error));
            match response.result {
                Some(result) => {
                    assert(members =~= seq![id, ("result"@, result), written, jsonrpc]);
                },
                None => {
                    assert(members =~= seq![id, written, jsonrpc]);
                },
            }
        },
        None => {
            match response.result {
                Some(result) => {
                    assert(members =~= seq![id, ("result"@, result), jsonrpc]);
                },
                None => {
                    assert(members =~= seq![id, jsonrpc]);
                },
            }
        },
    }
    assert(fits(Shape::Response, json));
}

/// Round trip: every message that is written as a JSON object is read back
/// from that object as the same message, of the same kind. The one change is
/// that a `params`, `result`, `error` or `data` that holds `null` is read back
/// as absent.
pub proof fn lemma_round_trip(message: MessageView)
    ensures
        message_of(json_of(message)) == Ok::<MessageView, TransportError>(normal(message)),
{
    match message {
        MessageView::Response(response) => lemma_response_round_trip(response),
        MessageView::Request(request) => lemma_request_round_trip(request),
        MessageView::Notification(notification) => lemma_notification_round_trip(notification),
    }
}

/// Round trip through text: where a message is encoded as a text, and the
/// text is read as the JSON object that was written, decoding the text gives
/// the message back (a `null` read as absent).
pub proof fn lemma_decode_encode(message: MessageView, text: Seq<char>)
    requires
        encoded(message) == Ok::<Seq<char>, TransportError>(text),
        parsed(text) == Some(json_of(message)),
    ensures
        decoded(text) == Ok::<MessageView, TransportError>(normal(message)),
{
    lemma_round_trip(message);
}

/// Framing: the line that is written for a message is read as what the
/// message's text decodes to. The line feed that `send` adds is the one that
/// `receive` takes off.
pub proof fn lemma_receive_sent(message: MessageView, text: Seq<char>)
    requires
        encoded(message) == Ok::<Seq<char>, TransportError>(text),
    ensures
        sent(message) == Ok::<Seq<char>, TransportError>(text.push(line_feed())),
        received(text.push(line_feed())) == decoded(text),
{
    assert(text.push(line_feed()).drop_last() =~= text);
}

/// Strictness: a JSON value with a member whose name no message shape has
/// is read as no message.
pub proof fn lemma_unknown_member_rejected(json: JsonView, i: int)
    requires
        0 <= i < json.members().len(),
        !known(json.members()[i].0),
    ensures
        message_of(json) == Err::<MessageView, TransportError>(TransportError::MalformedMessage),
{
    lemma_names_differ();
    let name = json.members()[i].0;
    assert(!allowed(Shape::Response, name));
    assert(!allowed(Shape::Request, name));
    assert(!allowed(Shape::Notification, name));
}

/// Strictness: a JSON value that is no object, such as an array of messages,
/// is read as no message.
pub proof fn lemma_only_objects_are_messages(json: JsonView)
    requires
        !(json is Object),
    ensures
        message_of(json) == Err::<MessageView, TransportError>(TransportError::MalformedMessage),
{
}

/// Strictness: a text that is no JSON value decodes to no message.
pub proof fn lemma_only_json_decodes(text: Seq<char>)
    requires
        parsed(text) is None,
    ensures
        decoded(text) == Err::<MessageView, TransportError>(TransportError::MalformedMessage),
{
}

/// Discrimination: what a JSON object is read as goes by its members. One
/// that is read as a request has `id` and `method`; one that is read as a
/// notification has no `id`; one that is read as a response has neither
/// `method` nor `params`.
pub proof fn lemma_kind_by_members(json: JsonView)
    ensures
        message_of(json) matches Ok(MessageView::Request(_)) ==> has_member(json.members(), "id"@)
            && has_member(json.members(), "method"@),
        message_of(json) matches Ok(MessageView::Notification(_)) ==> !has_member(
            json.members(),
            "id"@,
        ),
        message_of(json) matches Ok(MessageView::Response(_)) ==> !has_member(
            json.members(),
            "method"@,
        ) && !has_member(json.members(), "params"@),
{
    lemma_names_differ();
    let members = json.members();
    lemma_member_found(members, "id"@);
    lemma_member_found(members, "method"@);
    if has_member(members, "id"@) {
        let i = choose|i: int| 0 <= i < members.len() && #[trigger] members[i].0 == "id"@;
        assert(!allowed(Shape::Notification, members[i].0));
    }
    if has_member(members, "method"@) {
        let i = choose|i: int| 0 <= i < members.len() && #[trigger] members[i].0 == "method"@;
        assert(!allowed(Shape::Response, members[i].0));
    }
    if has_member(members, "params"@) {
        let i = choose|i: int| 0 <= i < members.len() && #[trigger] members[i].0 == "params"@;
        assert(!allowed(Shape::Response, members[i].0));
    }
}

/// Discrimination: a JSON object that can be read as a request is read as
/// that request, never as a response.
pub proof fn lemma_request_read_as_request(json: JsonView)
    requires
        request_of(json) is Some,
    ensures
        message_of(json) == Ok::<MessageView, TransportError>(
            MessageView::Request(request_of(json)->0),
        ),
{
    lemma_names_differ();
    let members = json.members();
    lemma_member_found(members, "method"@);
    let i = choose|i: int| 0 <= i < members.len() && #[trigger] members[i].0 == "method"@;
    assert(!allowed(Shape::Response, members[i].0));
}

/// Discrimination: a JSON object that can be read as a notification and has
/// a `method` or `params` is read as that notification.
pub proof fn lemma_notification_read_as_notification(json: JsonView)
    requires
        notification_of(json) is Some,
        has_member(json.members(), "method"@) || has_member(json.members(), "params"@),
    ensures
        message_of(json) == Ok::<MessageView, TransportError>(
            MessageView::Notification(notification_of(json)->0),
        ),
{
    lemma_kind_by_members(json);
    lemma_names_differ();
    let members = json.members();
    lemma_member_found(members, "id"@);
    if has_member(members, "id"@) {
        let i = choose|i: int| 0 <= i < members.len() && #[trigger] members[i].0 == "id"@;
        assert(!allowed(Shape::Notification, members[i].0));
    }
}

/// Defaulting: a member that a JSON object leaves out is read as its
/// default. In a notification that is `method` empty, no `params` and
/// `jsonrpc` "2.0"; in a response `id` 0, no `result`, no `error` and
/// `jsonrpc` "2.0".
pub proof fn lemma_defaults(json: JsonView)
    ensures
        notification_of(json) matches Some(notification) ==> {
            &&& !has_member(json.members(), "method"@) ==> notification.method
                == Seq::<char>::empty()
            &&& !has_member(json.members(), "params"@) ==> notification.params is None
            &&& !has_member(json.members(), "jsonrpc"@) ==> notification.jsonrpc
                == default_version()
        },
        response_of(json) matches Some(response) ==> {
            &&& !has_member(json.members(), "id"@) ==> response.id == 0
            &&& !has_member(json.members(), "result"@) ==> response.result is None
            &&& !has_member(json.members(), "error"@) ==> response.error is None
            &&& !has_member(json.members(), "jsonrpc"@) ==> response.jsonrpc == default_version()
        },
{
    let members = json.members();
    lemma_member_found(members, "id"@);
    lemma_member_found(members, "method"@);
    lemma_member_found(members, "params"@);
    lemma_member_found(members, "result"@);
    lemma_member_found(members, "error"@);
    lemma_member_found(members, "jsonrpc"@);
}

/// Defaulting: the object without members can be read as the notification
/// with every default. Read as a message it is the response with every
/// default, a response being what an object is first read as.
pub proof fn lemma_empty_object(json: JsonView)
    requires
        json is Object,
        json.members().len() == 0,
    ensures
        notification_of(json) == Some(
            NotificationView {
                method: Seq::<char>::empty(),
                params: None,
                jsonrpc: default_version(),
            },
        ),
        message_of(json) == Ok::<MessageView, TransportError>(
            MessageView::Response(
                ResponseView { id: 0, result: None, error: None, jsonrpc: default_version() },
            ),
        ),
{
}

/// Whether a member of a message is present, by the name it is written under.
pub open spec fn holds(message: MessageView, name: Seq<char>) -> bool {
    match message {
        MessageView::Response(response) => name == "id"@ || name == "jsonrpc"@ || (name
            == "result"@ && response.result is Some) || (name == "error"@ && response.error
            is Some),
        MessageView::Request(request) => name == "id"@ || name == "method"@ || name == "jsonrpc"@
            || (name == "params"@ && request.params is Some),
        MessageView::Notification(notification) => name == "method"@ || name == "jsonrpc"@ || (
        name == "params"@ && notification.params is Some),
    }
}

/// Omission: the JSON object of a message has a member of a name exactly
/// when the message holds that member. So `params`, `result` and `error`
/// that are absent are left out, not written as `null`.
pub proof fn lemma_absent_left_out(message: MessageView, name: Seq<char>)
    ensures
        has_member(json_of(message).members(), name) <==> holds(message, name),
{
    lemma_names_differ();
    let members = json_of(message).members();
    lemma_members_of(message);
    if has_member(members, name) {
        let i = choose|i: int| 0 <= i < members.len() && #[trigger] members[i].0 == name;
        assert(holds(message, members[i].0));
    }
    if holds(message, name) {
        let i = index_of(message, name);
        assert(members[i].0 == name);
    }
}

/// Where the member of a name stands in the JSON object of a message that
/// holds it.
pub open spec fn index_of(message: MessageView, name: Seq<char>) -> int {
    match message {
        MessageView::Response(response) => if name == "id"@ {
            0
        } else if name == "result"@ {
            1
        } else if name == "error"@ {
            if response.result is Some {
                2
            } else {
                1
            }
        } else {
            json_of(message).members().len() - 1
        },
        MessageView::Request(request) => if name == "id"@ {
            0
        } else if name == "method"@ {
            1
        } else if name == "params"@ {
            2
        } else {
            json_of(message).members().len() - 1
        },
        MessageView::Notification(notification) => if name == "method"@ {
            0
        } else if name == "params"@ {
            1
        } else {
            json_of(message).members().len() - 1
        },
    }
}

/// The names in the JSON object of a message, place by place.
proof fn lemma_members_of(message: MessageView)
    ensures
        forall|i: int|
            0 <= i < json_of(message).members().len() ==> holds(
                message,
                #[trigger] json_of(message).members()[i].0,
            ),
        forall|name: Seq<char>|
            holds(message, name) ==> 0 <= #[trigger] index_of(message, name) < json_of(
                message,
            ).members().len() && json_of(message).members()[index_of(message, name)].0 == name,
{
    lemma_names_differ();
    let members = json_of(message).members();
    match message {
        MessageView::Response(response) => {
            let id: (Seq<char>, JsonView) = ("id"@, json_int(response.id as int));
            let jsonrpc: (Seq<char>, JsonView) = ("jsonrpc"@, JsonView::String(response.jsonrpc));
            match response.error {
                Some(error) => {
                    let written: (Seq<char>, JsonView) = ("error"@, json_of_error(error));
                    match response.result {
                        Some(result) => {
                            assert(members =~= seq![id, ("result"@, result), written, jsonrpc]);
                        },
                        None => {
                            assert(members =~= seq![id, written, jsonrpc]);
                        },
                    }
                },
                None => {
                    match response.result {
                        Some(result) => {
                            assert(members =~= seq![id, ("result"@, result), jsonrpc]);
                        },
                        None => {
                            assert(members =~= seq![id, jsonrpc]);
                        },
                    }
                },
            }
        },
        MessageView::Request(request) => {
            let id: (Seq<char>, JsonView) = ("id"@, json_int(request.id as int));
            let method: (Seq<char>, JsonView) = ("method"@, JsonView::String(request.method));
            let jsonrpc: (Seq<char>, JsonView) = ("jsonrpc"@, JsonView::String(request.jsonrpc));
            match request.params {
                Some(params) => {
                    assert(members =~= seq![id, method, ("params"@, params), jsonrpc]);
                },
                None => {
                    assert(members =~= seq![id, method, jsonrpc]);
                },
            }
        },
        MessageView::Notification(notification) => {
            let method: (Seq<char>, JsonView) = ("method"@, JsonView::String(notification.method));
            let jsonrpc: (Seq<char>, JsonView) = (
                "jsonrpc"@,
                JsonView::String(notification.jsonrpc),
            );
            match notification.params {
                Some(params) => {
                    assert(members =~= seq![method, ("params"@, params), jsonrpc]);
                },
                None => {
                    assert(members =~= seq![method, jsonrpc]);
                },
            }
        },
    }
}

} // verus!
