//! The replies of a mock system.

use vstd::prelude::*;
use vstd::string::*;
use crate::command::raw::{
    command_path,
    extended,
    params_text,
    Params,
    RawCommand,
    RawCommandView,
};
use crate::data::response::{opt_json_view, RawResponse, RawResponseHeos, RawResponseView};
use crate::json::{JsonValue, JsonView};
use crate::text::{concat2, concat3};
use crate::views::{lemma_views_take_next, views};

verus! {

/// A reply to `command` with the given result, message and payload.
pub open spec fn reply_to(
    command: RawCommandView,
    result: bool,
    message: Seq<char>,
    payload: Option<JsonView>,
) -> RawResponseView {
    RawResponseView {
        command: command_path(command.group, command.command),
        result: Some(result),
        message,
        payload,
        options: None,
    }
}

/// The success reply to `command`: the message reflects the parameters of
/// the command, with those of `extra` set on top.
pub open spec fn success(
    command: RawCommandView,
    extra: Params,
    payload: Option<JsonView>,
) -> RawResponseView {
    reply_to(command, true, params_text(extended(command.params, extra)), payload)
}

/// The success reply whose message is `message` as it stands.
pub open spec fn success_with_message(
    command: RawCommandView,
    message: Seq<char>,
) -> RawResponseView {
    reply_to(command, true, message, None)
}

/// The failure reply with the given error number and text.
pub open spec fn failure(
    command: RawCommandView,
    eid: Seq<char>,
    text: Seq<char>,
) -> RawResponseView {
    reply_to(command, false, "eid="@ + eid + "&text="@ + text, None)
}

/// The reply to a command that names something that is not there.
pub open spec fn invalid_id(
    command: RawCommandView,
    kind: Seq<char>,
    value: Seq<char>,
) -> RawResponseView {
    failure(command, "2"@, "Invalid "@ + kind + " '"@ + value + "'"@)
}

/// The reply to a command that lacks an argument.
pub open spec fn missing_argument(command: RawCommandView, name: Seq<char>) -> RawResponseView {
    failure(command, "3"@, "Missing '"@ + name + "' argument"@)
}

/// The reply to a command with an argument that cannot be read.
pub open spec fn invalid_argument(
    command: RawCommandView,
    name: Seq<char>,
    detail: Seq<char>,
) -> RawResponseView {
    failure(command, "3"@, "Invalid '"@ + name + "' argument: "@ + detail)
}

/// The reply to a command that reaches outside a list.
pub open spec fn out_of_range(
    command: RawCommandView,
    index: Seq<char>,
    bounds: Seq<char>,
) -> RawResponseView {
    failure(command, "9"@, "Index ("@ + index + ") out of range: "@ + bounds)
}

/// The reply to a command that the mock does not know.
pub open spec fn unrecognized(command: RawCommandView) -> RawResponseView {
    failure(
        command,
        "1"@,
        "Unrecognized command "@ + command_path(command.group, command.command),
    )
}

/// Builds a reply.
pub fn make_reply(
    command: &RawCommand,
    result: bool,
    message: String,
    payload: Option<JsonValue>,
) -> (r: RawResponse)
    ensures
        r@ == reply_to(command@, result, message@, opt_json_view(payload)),
{
    RawResponse {
        heos: RawResponseHeos { command: command.command(), result: Some(result), message },
        payload,
        options: None,
    }
}

/// Builds a success reply.
pub fn success_response(
    command: &RawCommand,
    extra: &Vec<(String, String)>,
    payload: Option<JsonValue>,
) -> (r: RawResponse)
    requires
        command.wf(),
    ensures
        r@ == success(command@, views(extra@), opt_json_view(payload)),
{
    let mut reflected = command.duplicate();
    let mut i: usize = 0;
    while i < extra.len()
        invariant
            i <= extra.len(),
            reflected.wf(),
            reflected@.group == command@.group,
            reflected@.command == command@.command,
            reflected@.params == extended(command@.params, views(extra@.take(i as int))),
        decreases extra.len() - i,
    {
        proof {
            lemma_views_take_next(extra@, i as int);
            assert(views(extra@.take(i + 1)).drop_last() =~= views(extra@.take(i as int)));
        }
        reflected.param(extra[i].0.as_str(), extra[i].1.as_str());
        i += 1;
    }
    assert(extra@.take(i as int) =~= extra@);
    make_reply(command, true, reflected.params_string(), payload)
}

/// Builds the plain success reply: no extra parameters, no payload.
pub fn plain_success(command: &RawCommand) -> (r: RawResponse)
    requires
        command.wf(),
    ensures
        r@ == success(command@, Seq::empty(), None),
{
    let extra: Vec<(String, String)> = Vec::new();
    assert(views(extra@) =~= Seq::empty());
    success_response(command, &extra, None)
}

/// Builds a success reply with a payload.
pub fn payload_success(command: &RawCommand, payload: JsonValue) -> (r: RawResponse)
    requires
        command.wf(),
    ensures
        r@ == success(command@, Seq::empty(), Some(payload@)),
{
    let extra: Vec<(String, String)> = Vec::new();
    assert(views(extra@) =~= Seq::empty());
    success_response(command, &extra, Some(payload))
}

/// Builds a success reply that tells one more value in its message.
pub fn value_success(command: &RawCommand, key: &str, value: &str) -> (r: RawResponse)
    requires
        command.wf(),
    ensures
        r@ == success(command@, seq![(key@, value@)], None),
{
    let mut extra: Vec<(String, String)> = Vec::new();
    extra.push((String::from_str(key), String::from_str(value)));
    assert(views(extra@) =~= seq![(key@, value@)]);
    success_response(command, &extra, None)
}

/// Builds a failure reply.
pub fn failure_response(command: &RawCommand, eid: &str, text: &str) -> (r: RawResponse)
    ensures
        r@ == failure(command@, eid@, text@),
{
    let mut message = concat3("eid=", eid, "&text=");
    message.append(text);
    make_reply(command, false, message, None)
}

/// Builds the reply to a command that names something that is not there.
pub fn invalid_id_error(command: &RawCommand, kind: &str, value: &str) -> (r: RawResponse)
    ensures
        r@ == invalid_id(command@, kind@, value@),
{
    let mut text = concat3("Invalid ", kind, " '");
    text.append(value);
    text.push('\'');
    proof {
        reveal_strlit("'");
        assert(text@ =~= "Invalid "@ + kind@ + " '"@ + value@ + "'"@);
    }
    failure_response(command, "2", text.as_str())
}

/// Builds the reply to a command that lacks an argument.
pub fn missing_argument_error(command: &RawCommand, name: &str) -> (r: RawResponse)
    ensures
        r@ == missing_argument(command@, name@),
{
    let text = concat3("Missing '", name, "' argument");
    failure_response(command, "3", text.as_str())
}

/// Builds the reply to a command with an argument that cannot be read.
pub fn invalid_argument_error(command: &RawCommand, name: &str, detail: &str) -> (r: RawResponse)
    ensures
        r@ == invalid_argument(command@, name@, detail@),
{
    let mut text = concat3("Invalid '", name, "' argument: ");
    text.append(detail);
    failure_response(command, "3", text.as_str())
}

/// Builds the reply to a command that reaches outside a list.
pub fn out_of_range_error(command: &RawCommand, index: &str, bounds: &str) -> (r: RawResponse)
    ensures
        r@ == out_of_range(command@, index@, bounds@),
{
    let mut text = concat3("Index (", index, ") out of range: ");
    text.append(bounds);
    failure_response(command, "9", text.as_str())
}

/// Builds the reply to a command that the mock does not know.
pub fn unrecognized_error(command: &RawCommand) -> (r: RawResponse)
    ensures
        r@ == unrecognized(command@),
{
    let text = concat2("Unrecognized command ", command.command().as_str());
    failure_response(command, "1", text.as_str())
}

} // verus!
