//! Errors that a command can end in.

use vstd::prelude::*;
use vstd::string::*;
use crate::command::ser::{Error, ErrorView};
use crate::data::query::{field, message_field};
use crate::text::{
    concat2,
    concat3,
    i64_to_string,
    int_text,
    opt_str,
    opt_str_text,
    parse_i64,
    text_i64,
};

verus! {

/// Why a command failed.
#[derive(Debug)]
pub enum CommandError {
    /// The system does not know the command.
    UnrecognizedCommand,
    /// An identifier in the command names nothing.
    InvalidId,
    /// An argument is missing or wrong.
    InvalidArguments,
    /// The data asked for is not there.
    DataNotAvailable,
    /// The resource asked for is not there at the moment.
    ResourceNotAvailable,
    /// The credentials were refused.
    InvalidCredentials,
    /// The command could not be carried out.
    CommandNotExecuted,
    /// No user is signed in where one is needed.
    UserNotLoggedIn,
    /// A parameter is out of range.
    ParamOutOfRange,
    /// No such user.
    UserNotFound,
    /// The system failed inside.
    InternalError,
    /// A music service failed; the number is the service's own.
    SystemError(i64),
    /// The system is still busy with an earlier command.
    ProcessingPreviousCommand,
    /// The media cannot be played.
    CannotPlay,
    /// The music service does not support the option.
    NotSupported,
    /// The system's command queue is full.
    CommandQueueFull,
    /// The user may not skip any more tracks.
    SkipLimit,
    /// An error number outside the known table, with the text that came
    /// with it.
    Unknown { eid: i64, text: String },
    /// The reply lacks a field or holds a value of the wrong kind.
    MalformedResponse(String),
    /// Sending the command or receiving the reply failed.
    IoError(String),
    /// The command could not be written as a raw command.
    SerializeError(Error),
}

/// A `CommandError` as plain values.
pub ghost enum CommandErrorView {
    UnrecognizedCommand,
    InvalidId,
    InvalidArguments,
    DataNotAvailable,
    ResourceNotAvailable,
    InvalidCredentials,
    CommandNotExecuted,
    UserNotLoggedIn,
    ParamOutOfRange,
    UserNotFound,
    InternalError,
    SystemError(i64),
    ProcessingPreviousCommand,
    CannotPlay,
    NotSupported,
    CommandQueueFull,
    SkipLimit,
    Unknown { eid: i64, text: Seq<char> },
    MalformedResponse(Seq<char>),
    IoError(Seq<char>),
    SerializeError(ErrorView),
}

impl View for CommandError {
    type V = CommandErrorView;

    open spec fn view(&self) -> CommandErrorView {
        match self {
            CommandError::UnrecognizedCommand => CommandErrorView::UnrecognizedCommand,
            CommandError::InvalidId => CommandErrorView::InvalidId,
            CommandError::InvalidArguments => CommandErrorView::InvalidArguments,
            CommandError::DataNotAvailable => CommandErrorView::DataNotAvailable,
            CommandError::ResourceNotAvailable => CommandErrorView::ResourceNotAvailable,
            CommandError::InvalidCredentials => CommandErrorView::InvalidCredentials,
            CommandError::CommandNotExecuted => CommandErrorView::CommandNotExecuted,
            CommandError::UserNotLoggedIn => CommandErrorView::UserNotLoggedIn,
            CommandError::ParamOutOfRange => CommandErrorView::ParamOutOfRange,
            CommandError::UserNotFound => CommandErrorView::UserNotFound,
            CommandError::InternalError => CommandErrorView::InternalError,
            CommandError::SystemError(n) => CommandErrorView::SystemError(*n),
            CommandError::ProcessingPreviousCommand => CommandErrorView::ProcessingPreviousCommand,
            CommandError::CannotPlay => CommandErrorView::CannotPlay,
            CommandError::NotSupported => CommandErrorView::NotSupported,
            CommandError::CommandQueueFull => CommandErrorView::CommandQueueFull,
            CommandError::SkipLimit => CommandErrorView::SkipLimit,
            CommandError::Unknown { eid, text } => CommandErrorView::Unknown {
                eid: *eid,
                text: text@,
            },
            CommandError::MalformedResponse(t) => CommandErrorView::MalformedResponse(t@),
            CommandError::IoError(t) => CommandErrorView::IoError(t@),
            CommandError::SerializeError(e) => CommandErrorView::SerializeError(e@),
        }
    }
}

/// The error for a reply that lacks the field `name`.
pub open spec fn missing_field(name: Seq<char>) -> CommandErrorView {
    CommandErrorView::MalformedResponse("Missing field '"@ + name + "'"@)
}

/// The error for a field whose text is no number.
pub open spec fn unparsable(name: Seq<char>, text: Seq<char>) -> CommandErrorView {
    CommandErrorView::MalformedResponse("could not parse '"@ + name + "': "@ + text)
}

/// The error for a value of the wrong kind.
pub open spec fn incorrect_data_type(expected: Seq<char>, actual: Seq<char>) -> CommandErrorView {
    CommandErrorView::MalformedResponse(
        "Incorrect data type (expected='"@ + expected + "'): "@ + actual,
    )
}

/// The error that an error number of the table stands for.
pub open spec fn error_of_code(eid: int) -> Option<CommandErrorView> {
    if eid == 1 {
        Some(CommandErrorView::UnrecognizedCommand)
    } else if eid == 2 {
        Some(CommandErrorView::InvalidId)
    } else if eid == 3 {
        Some(CommandErrorView::InvalidArguments)
    } else if eid == 4 {
        Some(CommandErrorView::DataNotAvailable)
    } else if eid == 5 {
        Some(CommandErrorView::ResourceNotAvailable)
    } else if eid == 6 {
        Some(CommandErrorView::InvalidCredentials)
    } else if eid == 7 {
        Some(CommandErrorView::CommandNotExecuted)
    } else if eid == 8 {
        Some(CommandErrorView::UserNotLoggedIn)
    } else if eid == 9 {
        Some(CommandErrorView::ParamOutOfRange)
    } else if eid == 10 {
        Some(CommandErrorView::UserNotFound)
    } else if eid == 11 {
        Some(CommandErrorView::InternalError)
    } else if eid == 13 {
        Some(CommandErrorView::ProcessingPreviousCommand)
    } else if eid == 14 {
        Some(CommandErrorView::CannotPlay)
    } else if eid == 15 {
        Some(CommandErrorView::NotSupported)
    } else if eid == 16 {
        Some(CommandErrorView::CommandQueueFull)
    } else if eid == 17 {
        Some(CommandErrorView::SkipLimit)
    } else {
        None
    }
}

/// The error that the fields of a failure message stand for. The field
/// `eid` decides; number 12 takes `syserrno`; a number outside the table
/// takes `text`, empty where there is none.
pub open spec fn error_of_fields(
    eid: Option<Seq<char>>,
    syserrno: Option<Seq<char>>,
    text: Option<Seq<char>>,
) -> CommandErrorView {
    match eid {
        None => missing_field("heos.message.eid"@),
        Some(eid_text) => match text_i64(eid_text) {
            None => unparsable("eid"@, eid_text),
            Some(code) => if code == 12 {
                match syserrno {
                    None => missing_field("heos.message.syserrno"@),
                    Some(errno_text) => match text_i64(errno_text) {
                        None => unparsable("syserrno"@, errno_text),
                        Some(errno) => CommandErrorView::SystemError(errno),
                    },
                }
            } else {
                match error_of_code(code as int) {
                    Some(e) => e,
                    None => CommandErrorView::Unknown {
                        eid: code,
                        text: match text {
                            Some(t) => t,
                            None => Seq::empty(),
                        },
                    },
                }
            },
        },
    }
}

fn known_error(eid: i64) -> (r: Option<CommandError>)
    ensures
        match r {
            Some(e) => error_of_code(eid as int) == Some(e@),
            None => error_of_code(eid as int) is None,
        },
{
    if eid == 1 {
        Some(CommandError::UnrecognizedCommand)
    } else if eid == 2 {
        Some(CommandError::InvalidId)
    } else if eid == 3 {
        Some(CommandError::InvalidArguments)
    } else if eid == 4 {
        Some(CommandError::DataNotAvailable)
    } else if eid == 5 {
        Some(CommandError::ResourceNotAvailable)
    } else if eid == 6 {
        Some(CommandError::InvalidCredentials)
    } else if eid == 7 {
        Some(CommandError::CommandNotExecuted)
    } else if eid == 8 {
        Some(CommandError::UserNotLoggedIn)
    } else if eid == 9 {
        Some(CommandError::ParamOutOfRange)
    } else if eid == 10 {
        Some(CommandError::UserNotFound)
    } else if eid == 11 {
        Some(CommandError::InternalError)
    } else if eid == 13 {
        Some(CommandError::ProcessingPreviousCommand)
    } else if eid == 14 {
        Some(CommandError::CannotPlay)
    } else if eid == 15 {
        Some(CommandError::NotSupported)
    } else if eid == 16 {
        Some(CommandError::CommandQueueFull)
    } else if eid == 17 {
        Some(CommandError::SkipLimit)
    } else {
        None
    }
}

impl CommandError {
    /// The error for a reply that lacks the field `name`.
    pub fn response_missing_field(name: &str) -> (r: Self)
        ensures
            r@ == missing_field(name@),
    {
        CommandError::MalformedResponse(concat3("Missing field '", name, "'"))
    }

    /// The error for a value of the wrong kind: the kind that was expected
    /// and the value that was found, as text.
    pub fn response_incorrect_data_type(expected_type: &str, actual_value: &str) -> (r: Self)
        ensures
            r@ == incorrect_data_type(expected_type@, actual_value@),
    {
        let mut text = concat3("Incorrect data type (expected='", expected_type, "'): ");
        text.append(actual_value);
        CommandError::MalformedResponse(text)
    }

    /// The error for a field whose text is no number.
    pub fn response_unparsable(name: &str, text: &str) -> (r: Self)
        ensures
            r@ == unparsable(name@, text@),
    {
        let mut message = concat3("could not parse '", name, "': ");
        message.append(text);
        CommandError::MalformedResponse(message)
    }

    /// The error that the fields of a failure message stand for.
    pub fn from_fields(eid: Option<&str>, syserrno: Option<&str>, text: Option<&str>) -> (r: Self)
        ensures
            r@ == error_of_fields(opt_str_text(eid), opt_str_text(syserrno), opt_str_text(text)),
    {
        let eid_text = match eid {
            Some(t) => t,
            None => return Self::response_missing_field("heos.message.eid"),
        };
        let code = match parse_i64(eid_text) {
            Some(code) => code,
            None => return Self::response_unparsable("eid", eid_text),
        };
        if code == 12 {
            let errno_text = match syserrno {
                Some(t) => t,
                None => return Self::response_missing_field("heos.message.syserrno"),
            };
            match parse_i64(errno_text) {
                Some(errno) => CommandError::SystemError(errno),
                None => Self::response_unparsable("syserrno", errno_text),
            }
        } else {
            match known_error(code) {
                Some(e) => e,
                None => CommandError::Unknown {
                    eid: code,
                    text: match text {
                        Some(t) => String::from_str(t),
                        None => String::new(),
                    },
                },
            }
        }
    }

    /// Reads the error out of the message of a failed reply.
    pub fn from_message(msg: &str) -> (r: Self)
        ensures
            r@ == error_of_fields(
                message_field(msg@, "eid"@),
                message_field(msg@, "syserrno"@),
                message_field(msg@, "text"@),
            ),
    {
        let eid = field(msg, "eid");
        let syserrno = field(msg, "syserrno");
        let text = field(msg, "text");
        Self::from_fields(opt_str(&eid), opt_str(&syserrno), opt_str(&text))
    }
}

/// What an error says, in words.
pub open spec fn error_text(e: CommandErrorView) -> Seq<char> {
    match e {
        CommandErrorView::UnrecognizedCommand => "Command not recognized"@,
        CommandErrorView::InvalidId => "ID not valid"@,
        CommandErrorView::InvalidArguments => "Command arguments are invalid"@,
        CommandErrorView::DataNotAvailable => "Requested data not available"@,
        CommandErrorView::ResourceNotAvailable => "Resource currently not available"@,
        CommandErrorView::InvalidCredentials => "Invalid credentials"@,
        CommandErrorView::CommandNotExecuted => "Command could not be executed"@,
        CommandErrorView::UserNotLoggedIn => "User not logged in"@,
        CommandErrorView::ParamOutOfRange => "Parameter out of range"@,
        CommandErrorView::UserNotFound => "User not found"@,
        CommandErrorView::InternalError => "Internal system error"@,
        CommandErrorView::SystemError(n) => "System error (syserrno="@ + int_text(n as int) + ")"@,
        CommandErrorView::ProcessingPreviousCommand => "Busy processing previous command"@,
        CommandErrorView::CannotPlay => "Media cannot be played"@,
        CommandErrorView::NotSupported => "Option not supported"@,
        CommandErrorView::CommandQueueFull => "Too many commands in message queue"@,
        CommandErrorView::SkipLimit => "Reached skip limit"@,
        CommandErrorView::Unknown { eid, text } => "Unknown error ("@ + int_text(eid as int)
            + "): "@ + text,
        CommandErrorView::MalformedResponse(t) => "Response is malformed: "@ + t,
        CommandErrorView::IoError(t) => "IO Error: "@ + t,
        CommandErrorView::SerializeError(e) => "Failed to serialize into raw command: "@
            + Error::text(e),
    }
}

impl CommandError {
    /// What the error says, in words.
    pub fn to_string(&self) -> (s: String)
        ensures
            s@ == error_text(self@),
    {
        match self {
            CommandError::UnrecognizedCommand => String::from_str("Command not recognized"),
            CommandError::InvalidId => String::from_str("ID not valid"),
            CommandError::InvalidArguments => String::from_str("Command arguments are invalid"),
            CommandError::DataNotAvailable => String::from_str("Requested data not available"),
            CommandError::ResourceNotAvailable => String::from_str(
                "Resource currently not available",
            ),
            CommandError::InvalidCredentials => String::from_str("Invalid credentials"),
            CommandError::CommandNotExecuted => String::from_str("Command could not be executed"),
            CommandError::UserNotLoggedIn => String::from_str("User not logged in"),
            CommandError::ParamOutOfRange => String::from_str("Parameter out of range"),
            CommandError::UserNotFound => String::from_str("User not found"),
            CommandError::InternalError => String::from_str("Internal system error"),
            CommandError::SystemError(n) => concat3(
                "System error (syserrno=",
                i64_to_string(*n).as_str(),
                ")",
            ),
            CommandError::ProcessingPreviousCommand => String::from_str(
                "Busy processing previous command",
            ),
            CommandError::CannotPlay => String::from_str("Media cannot be played"),
            CommandError::NotSupported => String::from_str("Option not supported"),
            CommandError::CommandQueueFull => String::from_str(
                "Too many commands in message queue",
            ),
            CommandError::SkipLimit => String::from_str("Reached skip limit"),
            CommandError::Unknown { eid, text } => {
                let mut s = concat3("Unknown error (", i64_to_string(*eid).as_str(), "): ");
                s.append(text.as_str());
                s
            },
            CommandError::MalformedResponse(t) => concat2("Response is malformed: ", t.as_str()),
            CommandError::IoError(t) => concat2("IO Error: ", t.as_str()),
            CommandError::SerializeError(e) => concat2(
                "Failed to serialize into raw command: ",
                e.to_string().as_str(),
            ),
        }
    }
}

} // verus!
