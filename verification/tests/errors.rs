use heos::command::error::CommandError;
use heos::command::ser::Error;
use heos::data::query::{field, is_scannable};
use heos::data::response::{FrameKind, RawResponse, RawResponseHeos};
use heos::json::JsonValue;

#[test]
fn fields_of_a_message_are_found_by_name() {
    assert_eq!(field("pid=1&level=50", "level"), Some("50".to_string()));
    assert_eq!(field("pid=1&level=50", "pid"), Some("1".to_string()));
    assert_eq!(field("pid=1&level=50", "state"), None);
    assert_eq!(field("signed_out", "signed_out"), Some(String::new()));
    assert_eq!(field("a=1&a=2", "a"), Some("1".to_string()));
    assert_eq!(field("?a=1", "a"), Some("1".to_string()));
    assert_eq!(field("", "a"), None);
}

#[test]
fn fields_of_a_message_are_percent_decoded() {
    assert_eq!(field("name=Living%20Room", "name"), Some("Living Room".to_string()));
    assert_eq!(field("text=a%26b%3Dc", "text"), Some("a&b=c".to_string()));
    assert_eq!(field("na%6De=x", "name"), Some("x".to_string()));
}

#[test]
fn messages_whose_fields_begin_with_wide_characters_have_no_fields() {
    assert!(is_scannable("name=Küche&x=1"));
    assert_eq!(field("name=Küche&x=1", "name"), Some("Küche".to_string()));
    assert_eq!(field("name=Küche&x=1", "x"), Some("1".to_string()));
    assert!(is_scannable("name=Über"));
    assert_eq!(field("name=Über", "name"), Some("Über".to_string()));
    assert!(!is_scannable("é=1"));
    assert_eq!(field("é=1", "é"), None);
    assert!(!is_scannable("a=1&é=2"));
    assert_eq!(field("a=1&é=2", "a"), None);
    assert!(!is_scannable("=é"));
    assert!(!is_scannable("?é"));
    assert!(!is_scannable("a&&é"));
    assert!(is_scannable("a=é&b"));
    assert!(is_scannable(""));
    assert!(is_scannable("?"));
    assert!(is_scannable("a=b=é"));
}

fn error_of(message: &str) -> CommandError {
    CommandError::from_message(message)
}

#[test]
fn the_error_table() {
    assert!(matches!(error_of("eid=1&text=x"), CommandError::UnrecognizedCommand));
    assert!(matches!(error_of("eid=2&text=x"), CommandError::InvalidId));
    assert!(matches!(error_of("eid=3&text=x"), CommandError::InvalidArguments));
    assert!(matches!(error_of("eid=4&text=x"), CommandError::DataNotAvailable));
    assert!(matches!(error_of("eid=5&text=x"), CommandError::ResourceNotAvailable));
    assert!(matches!(error_of("eid=6&text=x"), CommandError::InvalidCredentials));
    assert!(matches!(error_of("eid=7&text=x"), CommandError::CommandNotExecuted));
    assert!(matches!(error_of("eid=8&text=x"), CommandError::UserNotLoggedIn));
    assert!(matches!(error_of("eid=9&text=x"), CommandError::ParamOutOfRange));
    assert!(matches!(error_of("eid=10&text=x"), CommandError::UserNotFound));
    assert!(matches!(error_of("eid=11&text=x"), CommandError::InternalError));
    assert!(matches!(error_of("eid=12&text=x&syserrno=-5"), CommandError::SystemError(-5)));
    assert!(matches!(error_of("eid=13&text=x"), CommandError::ProcessingPreviousCommand));
    assert!(matches!(error_of("eid=14&text=x"), CommandError::CannotPlay));
    assert!(matches!(error_of("eid=15&text=x"), CommandError::NotSupported));
    assert!(matches!(error_of("eid=16&text=x"), CommandError::CommandQueueFull));
    assert!(matches!(error_of("eid=17&text=x"), CommandError::SkipLimit));
    assert!(matches!(error_of("text=x&eid=2"), CommandError::InvalidId));
}

#[test]
fn errors_outside_the_table_keep_number_and_text() {
    match error_of("eid=18&text=Something%20new") {
        CommandError::Unknown { eid, text } => {
            assert_eq!(eid, 18);
            assert_eq!(text, "Something new");
        }
        other => panic!("{other:?}"),
    }
    match error_of("eid=0") {
        CommandError::Unknown { eid, text } => {
            assert_eq!(eid, 0);
            assert_eq!(text, "");
        }
        other => panic!("{other:?}"),
    }
    assert!(matches!(error_of("eid=-1&text=x"), CommandError::Unknown { eid: -1, .. }));
}

#[test]
fn malformed_failure_messages() {
    match error_of("text=no number") {
        CommandError::MalformedResponse(text) => {
            assert_eq!(text, "Missing field 'heos.message.eid'")
        }
        other => panic!("{other:?}"),
    }
    match error_of("eid=two") {
        CommandError::MalformedResponse(text) => assert_eq!(text, "could not parse 'eid': two"),
        other => panic!("{other:?}"),
    }
    match error_of("eid=12") {
        CommandError::MalformedResponse(text) => {
            assert_eq!(text, "Missing field 'heos.message.syserrno'")
        }
        other => panic!("{other:?}"),
    }
    match error_of("eid=12&syserrno=x") {
        CommandError::MalformedResponse(text) => {
            assert_eq!(text, "could not parse 'syserrno': x")
        }
        other => panic!("{other:?}"),
    }
    assert!(matches!(error_of(""), CommandError::MalformedResponse(_)));
}

#[test]
fn errors_from_fields() {
    assert!(matches!(
        CommandError::from_fields(Some("2"), None, None),
        CommandError::InvalidId
    ));
    assert!(matches!(
        CommandError::from_fields(None, Some("1"), Some("t")),
        CommandError::MalformedResponse(_)
    ));
    assert!(matches!(
        CommandError::from_fields(Some("12"), Some("7"), None),
        CommandError::SystemError(7)
    ));
    match CommandError::from_fields(Some("99"), None, Some("why")) {
        CommandError::Unknown { eid, text } => assert_eq!((eid, text.as_str()), (99, "why")),
        other => panic!("{other:?}"),
    }
}

#[test]
fn malformed_response_builders() {
    match CommandError::response_missing_field("payload") {
        CommandError::MalformedResponse(text) => assert_eq!(text, "Missing field 'payload'"),
        other => panic!("{other:?}"),
    }
    match CommandError::response_incorrect_data_type("string", "42") {
        CommandError::MalformedResponse(text) => {
            assert_eq!(text, "Incorrect data type (expected='string'): 42")
        }
        other => panic!("{other:?}"),
    }
}

#[test]
fn command_errors_in_words() {
    assert_eq!(CommandError::UnrecognizedCommand.to_string(), "Command not recognized");
    assert_eq!(CommandError::InvalidId.to_string(), "ID not valid");
    assert_eq!(CommandError::InvalidArguments.to_string(), "Command arguments are invalid");
    assert_eq!(CommandError::DataNotAvailable.to_string(), "Requested data not available");
    assert_eq!(CommandError::ResourceNotAvailable.to_string(), "Resource currently not available");
    assert_eq!(CommandError::InvalidCredentials.to_string(), "Invalid credentials");
    assert_eq!(CommandError::CommandNotExecuted.to_string(), "Command could not be executed");
    assert_eq!(CommandError::UserNotLoggedIn.to_string(), "User not logged in");
    assert_eq!(CommandError::ParamOutOfRange.to_string(), "Parameter out of range");
    assert_eq!(CommandError::UserNotFound.to_string(), "User not found");
    assert_eq!(CommandError::InternalError.to_string(), "Internal system error");
    assert_eq!(CommandError::SystemError(-3).to_string(), "System error (syserrno=-3)");
    assert_eq!(
        CommandError::ProcessingPreviousCommand.to_string(),
        "Busy processing previous command"
    );
    assert_eq!(CommandError::CannotPlay.to_string(), "Media cannot be played");
    assert_eq!(CommandError::NotSupported.to_string(), "Option not supported");
    assert_eq!(CommandError::CommandQueueFull.to_string(), "Too many commands in message queue");
    assert_eq!(CommandError::SkipLimit.to_string(), "Reached skip limit");
    assert_eq!(
        CommandError::Unknown { eid: 44, text: "odd".to_string() }.to_string(),
        "Unknown error (44): odd"
    );
    assert_eq!(
        CommandError::MalformedResponse("m".to_string()).to_string(),
        "Response is malformed: m"
    );
    assert_eq!(CommandError::IoError("broken pipe".to_string()).to_string(), "IO Error: broken pipe");
    assert_eq!(
        CommandError::SerializeError(Error::invalid_top_level("unit")).to_string(),
        "Failed to serialize into raw command: cannot serialize a top-level type of 'unit'"
    );
}

fn response(command: &str, result: Option<bool>, message: &str) -> RawResponse {
    RawResponse {
        heos: RawResponseHeos {
            command: command.to_string(),
            result,
            message: message.to_string(),
        },
        payload: None,
        options: None,
    }
}

#[test]
fn replies_are_validated_by_their_result() {
    assert!(response("player/get_volume", Some(true), "pid=1&level=3").validate_command().is_ok());
    assert!(matches!(
        response("player/get_volume", Some(false), "eid=2&text=ID Not Valid").validate_command(),
        Err(CommandError::InvalidId)
    ));
    match response("player/get_volume", None, "pid=1").validate_command() {
        Err(CommandError::MalformedResponse(text)) => {
            assert_eq!(text, "Missing field 'heos.result'")
        }
        other => panic!("{other:?}"),
    }
}

#[test]
fn the_sequence_number_of_a_reply() {
    assert_eq!(response("a/b", Some(true), "pid=1&SEQUENCE=17").try_msg_id().unwrap(), Some(17));
    assert_eq!(response("a/b", Some(true), "SEQUENCE=0").try_msg_id().unwrap(), Some(0));
    assert_eq!(response("a/b", Some(true), "pid=1").try_msg_id().unwrap(), None);
    assert_eq!(response("a/b", Some(true), "").try_msg_id().unwrap(), None);
    match response("a/b", Some(true), "SEQUENCE=x").try_msg_id() {
        Err(CommandError::MalformedResponse(text)) => {
            assert_eq!(text, "could not parse 'SEQUENCE': x")
        }
        other => panic!("{other:?}"),
    }
    assert!(response("a/b", Some(true), "SEQUENCE=-1").try_msg_id().is_err());
    assert_eq!(RawResponse::sequence_from_field(Some("5")).unwrap(), Some(5));
    assert_eq!(RawResponse::sequence_from_field(None).unwrap(), None);
    assert!(RawResponse::sequence_from_field(Some("")).is_err());
}

#[test]
fn frames_are_sorted_by_message_and_command() {
    assert_eq!(response("player/set_play_state", None, "command under process&pid=1").kind(), FrameKind::DelayAck);
    assert_eq!(response("event/players_changed", None, "command under process").kind(), FrameKind::DelayAck);
    assert_eq!(response("event/players_changed", None, "").kind(), FrameKind::Event);
    assert_eq!(response("event/", None, "").kind(), FrameKind::Event);
    assert_eq!(response("event", None, "").kind(), FrameKind::Reply);
    assert_eq!(response("player/get_volume", Some(true), "pid=1").kind(), FrameKind::Reply);
    assert_eq!(response("player/get_volume", Some(true), " command under process").kind(), FrameKind::Reply);
}

fn object(members: Vec<(&str, JsonValue)>) -> JsonValue {
    JsonValue::Object(members.into_iter().map(|(k, v)| (k.to_string(), v)).collect())
}

fn text(t: &str) -> JsonValue {
    JsonValue::Text(t.to_string())
}

#[test]
fn replies_are_read_from_their_json_form() {
    let json = object(vec![
        (
            "heos",
            object(vec![
                ("command", text("player/get_players")),
                ("result", text("success")),
                ("message", text("")),
            ]),
        ),
        ("payload", JsonValue::Array(vec![])),
    ]);
    let reply = RawResponse::from_json(json).unwrap();
    assert_eq!(reply.heos.command, "player/get_players");
    assert_eq!(reply.heos.result, Some(true));
    assert_eq!(reply.heos.message, "");
    assert!(matches!(reply.payload, Some(JsonValue::Array(_))));
    assert!(reply.options.is_none());

    let json = object(vec![
        ("options", JsonValue::Array(vec![object(vec![])])),
        ("payload", JsonValue::Null),
        ("heos", object(vec![("command", text("event/players_changed"))])),
    ]);
    let reply = RawResponse::from_json(json).unwrap();
    assert_eq!(reply.heos.result, None);
    assert_eq!(reply.heos.message, "");
    assert!(reply.payload.is_none());
    assert!(matches!(reply.options, Some(JsonValue::Array(_))));

    let json = object(vec![(
        "heos",
        object(vec![("command", text("a/b")), ("result", text("fail")), ("message", text("eid=2"))]),
    )]);
    let reply = RawResponse::from_json(json).unwrap();
    assert_eq!(reply.heos.result, Some(false));
    assert_eq!(reply.heos.message, "eid=2");
}

#[test]
fn malformed_json_forms_of_replies() {
    assert!(RawResponse::from_json(JsonValue::Null).is_err());
    assert!(RawResponse::from_json(object(vec![])).is_err());
    assert!(RawResponse::from_json(object(vec![("heos", object(vec![]))])).is_err());
    assert!(RawResponse::from_json(object(vec![(
        "heos",
        object(vec![("command", JsonValue::PosInt(1))])
    )]))
    .is_err());
    assert!(RawResponse::from_json(object(vec![(
        "heos",
        object(vec![("command", text("a/b")), ("result", text("maybe"))])
    )]))
    .is_err());
    assert!(RawResponse::from_json(object(vec![(
        "heos",
        object(vec![("command", text("a/b")), ("message", JsonValue::Null)])
    )]))
    .is_err());
    assert!(RawResponse::from_json(object(vec![(
        "heos",
        object(vec![("command", text("a/b")), ("result", JsonValue::Null)])
    )]))
    .is_ok());
}
