//! Replies as they come off the wire, before any typing.

use vstd::prelude::*;
use vstd::string::*;
use crate::command::error::{
    error_of_fields,
    incorrect_data_type,
    missing_field,
    unparsable,
    CommandError,
    CommandErrorView,
};
use crate::data::query::{field, message_field};
use crate::json::{member, member_text, told_view, JsonValue, JsonView};
use crate::text::{opt_str, opt_str_text, parse_u64, text_u64, FromText};

verus! {

/// The head of a reply.
#[derive(Debug)]
pub struct RawResponseHeos {
    /// What the reply answers: `<group>/<command>` for a command,
    /// `event/<name>` for a change event.
    pub command: String,
    /// Whether the command succeeded. Events and delay acknowledgements
    /// carry no result.
    pub result: Option<bool>,
    /// A query string: the parameters of the command as the system read
    /// them, and what else the reply has to say.
    pub message: String,
}

/// A reply or a change event.
#[derive(Debug)]
pub struct RawResponse {
    /// The head of the reply.
    pub heos: RawResponseHeos,
    /// The data of the reply, for commands that return more than fits the
    /// message.
    pub payload: Option<JsonValue>,
    /// The service options that apply to the data.
    pub options: Option<JsonValue>,
}

/// A `RawResponse` as plain values.
pub ghost struct RawResponseView {
    pub command: Seq<char>,
    pub result: Option<bool>,
    pub message: Seq<char>,
    pub payload: Option<JsonView>,
    pub options: Option<JsonView>,
}

/// The view of an optional owned JSON value.
pub open spec fn opt_json_view(j: Option<JsonValue>) -> Option<JsonView> {
    match j {
        Some(v) => Some(v@),
        None => None,
    }
}

impl View for RawResponse {
    type V = RawResponseView;

    open spec fn view(&self) -> RawResponseView {
        RawResponseView {
            command: self.heos.command@,
            result: self.heos.result,
            message: self.heos.message@,
            payload: opt_json_view(self.payload),
            options: opt_json_view(self.options),
        }
    }
}

/// `s` begins with `prefix`.
pub open spec fn starts_with(s: Seq<char>, prefix: Seq<char>) -> bool {
    s.len() >= prefix.len() && s.take(prefix.len() as int) == prefix
}

/// Whether `s` begins with `prefix`.
pub fn has_prefix(s: &str, prefix: &str) -> (r: bool)
    ensures
        r == starts_with(s@, prefix@),
{
    let a = crate::text::to_chars(s);
    let b = crate::text::to_chars(prefix);
    if a.len() < b.len() {
        return false;
    }
    let mut i: usize = 0;
    while i < b.len()
        invariant
            i <= b.len() <= a.len(),
            a@ == s@,
            b@ == prefix@,
            a@.take(i as int) == b@.take(i as int),
        decreases b.len() - i,
    {
        if a[i] != b[i] {
            proof {
                assert(a@.take(b.len() as int)[i as int] == a@[i as int]);
            }
            return false;
        }
        i += 1;
        proof {
            assert(a@.take(i as int) =~= a@.take(i - 1).push(a@[i - 1]));
            assert(b@.take(i as int) =~= b@.take(i - 1).push(b@[i - 1]));
        }
    }
    proof {
        assert(b@.take(i as int) =~= b@);
    }
    true
}

/// The three kinds of frame that a system sends.
#[derive(Clone, Copy, Debug, PartialEq, Eq, Structural)]
pub enum FrameKind {
    /// The system has taken the command and will answer later.
    DelayAck,
    /// Something changed in the system.
    Event,
    /// The answer to a command.
    Reply,
}

/// The kind of a frame: a message that begins with `command under process`
/// makes a delay acknowledgement; else a command that begins with `event/`
/// makes an event; anything else is a reply.
pub open spec fn frame_kind(r: RawResponseView) -> FrameKind {
    if starts_with(r.message, "command under process"@) {
        FrameKind::DelayAck
    } else if starts_with(r.command, "event/"@) {
        FrameKind::Event
    } else {
        FrameKind::Reply
    }
}

/// What the field `SEQUENCE` of a message says: `Ok(None)` where there is
/// none, the number where it is one, an error where it is something else.
pub open spec fn sequence_of(message: Seq<char>) -> Result<Option<u64>, CommandErrorView> {
    sequence_of_field(message_field(message, "SEQUENCE"@))
}

/// What a `SEQUENCE` field says.
pub open spec fn sequence_of_field(value: Option<Seq<char>>) -> Result<
    Option<u64>,
    CommandErrorView,
> {
    match value {
        None => Ok(None),
        Some(t) => match text_u64(t) {
            Some(n) => Ok(Some(n)),
            None => Err(unparsable("SEQUENCE"@, t)),
        },
    }
}

/// Whether a reply says that its command succeeded.
pub open spec fn validated(r: RawResponseView) -> Result<(), CommandErrorView> {
    match r.result {
        None => Err(missing_field("heos.result"@)),
        Some(true) => Ok(()),
        Some(false) => Err(
            error_of_fields(
                message_field(r.message, "eid"@),
                message_field(r.message, "syserrno"@),
                message_field(r.message, "text"@),
            ),
        ),
    }
}

impl RawResponse {
    /// The kind of the frame.
    pub fn kind(&self) -> (k: FrameKind)
        ensures
            k == frame_kind(self@),
    {
        if has_prefix(self.heos.message.as_str(), "command under process") {
            FrameKind::DelayAck
        } else if has_prefix(self.heos.command.as_str(), "event/") {
            FrameKind::Event
        } else {
            FrameKind::Reply
        }
    }

    /// Checks that the reply reports success; a failure is decoded from the
    /// message.
    pub fn validate_command(&self) -> (r: Result<(), CommandError>)
        ensures
            match r {
                Ok(()) => validated(self@) is Ok,
                Err(e) => validated(self@) == Err::<(), CommandErrorView>(e@),
            },
    {
        match self.heos.result {
            None => Err(CommandError::response_missing_field("heos.result")),
            Some(true) => Ok(()),
            Some(false) => Err(CommandError::from_message(self.heos.message.as_str())),
        }
    }

    /// What a `SEQUENCE` field says.
    pub fn sequence_from_field(value: Option<&str>) -> (r: Result<Option<u64>, CommandError>)
        ensures
            match r {
                Ok(n) => sequence_of_field(opt_str_text(value)) == Ok::<
                    Option<u64>,
                    CommandErrorView,
                >(n),
                Err(e) => sequence_of_field(opt_str_text(value)) == Err::<
                    Option<u64>,
                    CommandErrorView,
                >(e@),
            },
    {
        match value {
            None => Ok(None),
            Some(t) => match parse_u64(t) {
                Some(n) => Ok(Some(n)),
                None => Err(CommandError::response_unparsable("SEQUENCE", t)),
            },
        }
    }

    /// The sequence number that the reply reflects, if it reflects one.
    pub fn try_msg_id(&self) -> (r: Result<Option<u64>, CommandError>)
        ensures
            match r {
                Ok(n) => sequence_of(self@.message) == Ok::<Option<u64>, CommandErrorView>(n),
                Err(e) => sequence_of(self@.message) == Err::<Option<u64>, CommandErrorView>(
                    e@,
                ),
            },
    {
        let value = field(self.heos.message.as_str(), "SEQUENCE");
        Self::sequence_from_field(crate::text::opt_str(&value))
    }
}

/// What follows a reply that reports success; the error of the reply
/// where it reports failure.
pub open spec fn checked<T>(r: RawResponseView, then: Result<T, CommandErrorView>) -> Result<
    T,
    CommandErrorView,
> {
    match validated(r) {
        Err(e) => Err(e),
        Ok(()) => then,
    }
}

/// The value of a field of a message: the field `key` must be there and
/// stand for a value.
pub open spec fn typed_field<T: FromText>(value: Option<Seq<char>>, key: Seq<char>) -> Result<
    T,
    CommandErrorView,
> {
    match value {
        None => Err(missing_field("message."@ + key)),
        Some(t) => match T::read(t) {
            Some(v) => Ok(v),
            None => Err(unparsable(key, t)),
        },
    }
}

/// The value that a message holds under `key`.
pub open spec fn message_value<T: FromText>(message: Seq<char>, key: Seq<char>) -> Result<
    T,
    CommandErrorView,
> {
    typed_field::<T>(message_field(message, key), key)
}

/// The text that a message holds under `key`, which must be there.
pub open spec fn message_text(message: Seq<char>, key: Seq<char>) -> Result<
    Seq<char>,
    CommandErrorView,
> {
    match message_field(message, key) {
        Some(t) => Ok(t),
        None => Err(missing_field("message."@ + key)),
    }
}

/// The payload of a reply, which must be there.
pub open spec fn payload_of(r: RawResponseView) -> Result<JsonView, CommandErrorView> {
    match r.payload {
        Some(p) => Ok(p),
        None => Err(missing_field("payload"@)),
    }
}

/// `r` tells what `expected` tells, value for value.
pub open spec fn tells<T>(
    r: Result<T, CommandError>,
    expected: Result<T, CommandErrorView>,
) -> bool {
    match r {
        Ok(v) => expected == Ok::<T, CommandErrorView>(v),
        Err(e) => expected == Err::<T, CommandErrorView>(e@),
    }
}

/// Reads the value of a field that has been looked up already.
pub fn read_field<T: FromText>(value: Option<&str>, key: &str) -> (r: Result<T, CommandError>)
    ensures
        tells(r, typed_field::<T>(opt_str_text(value), key@)),
{
    match value {
        None => Err(
            CommandError::response_missing_field(crate::text::concat2("message.", key).as_str()),
        ),
        Some(t) => match T::parse_text(t) {
            Some(v) => Ok(v),
            None => Err(CommandError::response_unparsable(key, t)),
        },
    }
}

/// Reads the value that a message holds under `key`.
pub fn read_message_value<T: FromText>(message: &str, key: &str) -> (r: Result<T, CommandError>)
    ensures
        tells(r, message_value::<T>(message@, key@)),
{
    let value = field(message, key);
    read_field::<T>(opt_str(&value), key)
}

/// Reads the text that a message holds under `key`.
pub fn read_message_text(message: &str, key: &str) -> (r: Result<String, CommandError>)
    ensures
        match r {
            Ok(t) => message_text(message@, key@) == Ok::<Seq<char>, CommandErrorView>(t@),
            Err(e) => message_text(message@, key@) == Err::<Seq<char>, CommandErrorView>(e@),
        },
{
    match field(message, key) {
        Some(t) => Ok(t),
        None => Err(
            CommandError::response_missing_field(crate::text::concat2("message.", key).as_str()),
        ),
    }
}

impl RawResponse {
    /// The payload of the reply, which must be there.
    pub fn payload(&self) -> (r: Result<&JsonValue, CommandError>)
        ensures
            match r {
                Ok(p) => payload_of(self@) == Ok::<JsonView, CommandErrorView>(p@),
                Err(e) => payload_of(self@) == Err::<JsonView, CommandErrorView>(e@),
            },
    {
        match &self.payload {
            Some(p) => Ok(p),
            None => Err(CommandError::response_missing_field("payload")),
        }
    }
}

/// What the member `result` of the head of a reply tells: nothing where
/// it is missing or `null`, success for `success`, failure for `fail`.
pub open spec fn result_of_json(heos: JsonView) -> Result<Option<bool>, CommandErrorView> {
    match heos.get("result"@) {
        None => Ok(None),
        Some(v) => if v.is_null() {
            Ok(None)
        } else {
            match v.as_text() {
                None => Err(incorrect_data_type("string"@, "result"@)),
                Some(t) => if t == "success"@ {
                    Ok(Some(true))
                } else if t == "fail"@ {
                    Ok(Some(false))
                } else {
                    Err(incorrect_data_type("success/fail"@, "result"@))
                },
            }
        },
    }
}

/// What the member `message` of the head of a reply tells: the empty text
/// where it is missing.
pub open spec fn message_of_json(heos: JsonView) -> Result<Seq<char>, CommandErrorView> {
    match heos.get("message"@) {
        None => Ok(Seq::empty()),
        Some(v) => match v.as_text() {
            Some(t) => Ok(t),
            None => Err(incorrect_data_type("string"@, "message"@)),
        },
    }
}

/// The member `key` of an object where it is there and not `null`.
pub open spec fn optional_member(j: JsonView, key: Seq<char>) -> Option<JsonView> {
    match j.get(key) {
        Some(v) => if v.is_null() {
            None
        } else {
            Some(v)
        },
        None => None,
    }
}

/// What a JSON value tells as a reply: the head under `heos` with its
/// command, result and message, and beside it the payload and the
/// options, where there are any.
pub open spec fn raw_response_of_json(j: JsonView) -> Result<RawResponseView, CommandErrorView> {
    match member(j, "heos"@) {
        Err(e) => Err(e),
        Ok(heos) => match member_text(heos, "command"@) {
            Err(e) => Err(e),
            Ok(command) => match result_of_json(heos) {
                Err(e) => Err(e),
                Ok(result) => match message_of_json(heos) {
                    Err(e) => Err(e),
                    Ok(message) => Ok(
                        RawResponseView {
                            command,
                            result,
                            message,
                            payload: optional_member(j, "payload"@),
                            options: optional_member(j, "options"@),
                        },
                    ),
                },
            },
        },
    }
}

fn result_from_json(heos: &JsonValue) -> (r: Result<Option<bool>, CommandError>)
    ensures
        tells(r, result_of_json(heos@)),
{
    match heos.get("result") {
        None => Ok(None),
        Some(v) => if v.is_null() {
            Ok(None)
        } else {
            match v.as_str() {
                None => Err(CommandError::response_incorrect_data_type("string", "result")),
                Some(t) => if t.eq("success") {
                    Ok(Some(true))
                } else if t.eq("fail") {
                    Ok(Some(false))
                } else {
                    Err(CommandError::response_incorrect_data_type("success/fail", "result"))
                },
            }
        },
    }
}

fn message_from_json(heos: &JsonValue) -> (r: Result<String, CommandError>)
    ensures
        told_view(r, message_of_json(heos@)),
{
    match heos.get("message") {
        None => Ok(String::new()),
        Some(v) => match v.as_str() {
            Some(t) => Ok(String::from_str(t)),
            None => Err(CommandError::response_incorrect_data_type("string", "message")),
        },
    }
}

/// Takes the payload and the options out of the JSON form of a reply.
fn take_payload_and_options(json: JsonValue) -> (r: (Option<JsonValue>, Option<JsonValue>))
    ensures
        opt_json_view(r.0) == optional_member(json@, "payload"@),
        opt_json_view(r.1) == optional_member(json@, "options"@),
{
    proof {
        json.lemma_view();
        reveal_strlit("payload");
        reveal_strlit("options");
        assert("payload"@[0] != "options"@[0]);
    }
    match json {
        JsonValue::Object(members) => {
            let mut members = members;
            let ghost all = JsonValue::member_views(members@);
            let at_payload = JsonValue::index_of(&members, "payload");
            let at_options = JsonValue::index_of(&members, "options");
            proof {
                crate::json::lemma_member_index(all, "payload"@);
                crate::json::lemma_member_index(all, "options"@);
            }
            let (payload, options) = match (at_payload, at_options) {
                (None, None) => (None, None),
                (Some(p), None) => (Some(members.remove(p).1), None),
                (None, Some(o)) => (None, Some(members.remove(o).1)),
                (Some(p), Some(o)) => {
                    if p < o {
                        let options = members.remove(o).1;
                        let payload = members.remove(p).1;
                        (Some(payload), Some(options))
                    } else {
                        let payload = members.remove(p).1;
                        let options = members.remove(o).1;
                        (Some(payload), Some(options))
                    }
                },
            };
            (without_null(payload), without_null(options))
        },
        _ => (None, None),
    }
}

fn without_null(value: Option<JsonValue>) -> (r: Option<JsonValue>)
    ensures
        opt_json_view(r) == match value {
            Some(v) => if v@.is_null() {
                None
            } else {
                Some(v@)
            },
            None => None,
        },
{
    match value {
        Some(v) => if v.is_null() {
            None
        } else {
            Some(v)
        },
        None => None,
    }
}

impl RawResponse {
    /// Reads a reply from its JSON form.
    pub fn from_json(json: JsonValue) -> (r: Result<Self, CommandError>)
        ensures
            told_view(r, raw_response_of_json(json@)),
    {
        let heos = json.member("heos")?;
        let command = heos.member_text("command")?;
        let result = result_from_json(heos)?;
        let message = message_from_json(heos)?;
        let (payload, options) = take_payload_and_options(json);
        Ok(RawResponse { heos: RawResponseHeos { command, result, message }, payload, options })
    }
}

} // verus!
