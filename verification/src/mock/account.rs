//! What the system commands do to a mock system.

use vstd::prelude::*;
use vstd::string::*;
use crate::command::raw::{RawCommand, RawCommandView};
use crate::data::response::{RawResponse, RawResponseView};
use crate::data::system::ChangeEventsEnabled;
use crate::mock::args::{parse_command_argument, parse_text_argument, text_arg, typed_arg};
use crate::mock::reply::{make_reply, plain_success, success, success_with_message};
use crate::mock::system::{MockHeosSystem, MockView};
use crate::text::concat2;

verus! {

/// The message that tells who is signed in.
pub open spec fn account_message(username: Option<Seq<char>>) -> Seq<char> {
    match username {
        Some(name) => "signed_in&un="@ + name,
        None => "signed_out"@,
    }
}

/// Answers `system/register_for_change_events`: the mock checks the
/// argument `enable` and changes nothing.
pub open spec fn register_for_change_events_answer(s: MockView, c: RawCommandView) -> (
    MockView,
    RawResponseView,
) {
    match typed_arg::<ChangeEventsEnabled>(c, "enable"@) {
        Err(r) => (s, r),
        Ok(enable) => (s, success(c, Seq::empty(), None)),
    }
}

/// Answers `system/check_account`: the message tells who is signed in.
pub open spec fn check_account_answer(
    s: MockView,
    c: RawCommandView,
) -> (MockView, RawResponseView) {
    (s, success_with_message(c, account_message(s.username)))
}

/// Answers `system/sign_in`: the user under `username` is signed in. The
/// mock takes any password, but there must be one.
pub open spec fn sign_in_answer(s: MockView, c: RawCommandView) -> (MockView, RawResponseView) {
    match text_arg(c, "username"@) {
        Err(r) => (s, r),
        Ok(name) => match text_arg(c, "password"@) {
            Err(r) => (s, r),
            Ok(password) => (
                MockView { username: Some(name), ..s },
                success_with_message(c, account_message(Some(name))),
            ),
        },
    }
}

/// Answers `system/sign_out`: nobody is signed in.
pub open spec fn sign_out_answer(s: MockView, c: RawCommandView) -> (MockView, RawResponseView) {
    (MockView { username: None, ..s }, success_with_message(c, account_message(None)))
}

/// Answers `system/heart_beat` and `system/reboot`: success, and nothing
/// changes.
pub open spec fn idle_answer(s: MockView, c: RawCommandView) -> (MockView, RawResponseView) {
    (s, success(c, Seq::empty(), None))
}

impl MockHeosSystem {
    /// Answers `system/register_for_change_events`.
    pub fn register_for_change_events(&mut self, command: &RawCommand) -> (r: RawResponse)
        requires
            command.wf(),
        ensures
            (final(self)@, r@) == register_for_change_events_answer(old(self)@, command@),
    {
        match parse_command_argument::<ChangeEventsEnabled>(command, "enable") {
            Ok(_) => plain_success(command),
            Err(r) => r,
        }
    }

    /// Answers `system/check_account`.
    pub fn check_account(&mut self, command: &RawCommand) -> (r: RawResponse)
        ensures
            (final(self)@, r@) == check_account_answer(old(self)@, command@),
    {
        let message = match &self.username {
            Some(name) => concat2("signed_in&un=", name.as_str()),
            None => String::from_str("signed_out"),
        };
        make_reply(command, true, message, None)
    }

    /// Answers `system/sign_in`.
    pub fn sign_in(&mut self, command: &RawCommand) -> (r: RawResponse)
        ensures
            (final(self)@, r@) == sign_in_answer(old(self)@, command@),
    {
        let name = match parse_text_argument(command, "username") {
            Ok(name) => name.clone(),
            Err(r) => return r,
        };
        match parse_text_argument(command, "password") {
            Ok(_) => {},
            Err(r) => return r,
        }
        let message = concat2("signed_in&un=", name.as_str());
        self.username = Some(name);
        make_reply(command, true, message, None)
    }

    /// Answers `system/sign_out`.
    pub fn sign_out(&mut self, command: &RawCommand) -> (r: RawResponse)
        ensures
            (final(self)@, r@) == sign_out_answer(old(self)@, command@),
    {
        self.username = None;
        make_reply(command, true, String::from_str("signed_out"), None)
    }

    /// Answers `system/heart_beat` and `system/reboot`.
    pub fn idle(&mut self, command: &RawCommand) -> (r: RawResponse)
        requires
            command.wf(),
        ensures
            (final(self)@, r@) == idle_answer(old(self)@, command@),
    {
        plain_success(command)
    }
}

} // verus!
