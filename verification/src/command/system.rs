//! Commands that concern the system as a whole.

use vstd::prelude::*;
use vstd::string::*;
use crate::command::error::CommandError;
use crate::command::raw::{with_param, RawCommand, RawCommandView};
use crate::command::typed::Command;
use crate::data::response::{checked, tells, validated, RawResponse};
use crate::json::told_view;
use crate::data::system::{account_of_message, AccountStatus, ChangeEventsEnabled};

verus! {

/// Turns change events on or off for this connection.
#[derive(Clone, Copy, Debug)]
pub struct RegisterForChangeEvents {
    /// Whether events are to be sent.
    pub enable: ChangeEventsEnabled,
}

impl Command for RegisterForChangeEvents {
    type Response = ();

    fn response(raw: &RawResponse) -> (r: Result<(), CommandError>)
        ensures
            tells(r, validated(raw@)),
    {
        raw.validate_command()
    }

    open spec fn raw(&self) -> RawCommandView {
        let params = Seq::empty();
        let params = with_param(params, "enable"@, self.enable.wire());
        RawCommandView { group: "system"@, command: "register_for_change_events"@, params }
    }

    fn to_raw(&self) -> (r: RawCommand) {
        let mut r = RawCommand::new("system", "register_for_change_events");
        r.param("enable", self.enable.as_str());
        r
    }
}

/// Asks who is signed in.
#[derive(Clone, Copy, Debug)]
pub struct CheckAccount {}

impl Command for CheckAccount {
    type Response = AccountStatus;

    fn response(raw: &RawResponse) -> (r: Result<AccountStatus, CommandError>)
        ensures
            told_view(r, checked(raw@, account_of_message(raw@.message))),
    {
        raw.validate_command()?;
        AccountStatus::from_message(raw.heos.message.as_str())
    }

    open spec fn raw(&self) -> RawCommandView {
        let params = Seq::empty();
        RawCommandView { group: "system"@, command: "check_account"@, params }
    }

    fn to_raw(&self) -> (r: RawCommand) {
        let r = RawCommand::new("system", "check_account");
        r
    }
}

/// Signs a user in.
#[derive(Debug)]
pub struct SignIn {
    /// User name of the account.
    pub username: String,
    /// Password of the account.
    pub password: String,
}

impl Command for SignIn {
    type Response = ();

    fn response(raw: &RawResponse) -> (r: Result<(), CommandError>)
        ensures
            tells(r, validated(raw@)),
    {
        raw.validate_command()
    }

    open spec fn raw(&self) -> RawCommandView {
        let params = Seq::empty();
        let params = with_param(params, "username"@, self.username@);
        let params = with_param(params, "password"@, self.password@);
        RawCommandView { group: "system"@, command: "sign_in"@, params }
    }

    fn to_raw(&self) -> (r: RawCommand) {
        let mut r = RawCommand::new("system", "sign_in");
        r.param("username", self.username.as_str());
        r.param("password", self.password.as_str());
        r
    }
}

/// Signs the user out.
#[derive(Clone, Copy, Debug)]
pub struct SignOut {}

impl Command for SignOut {
    type Response = ();

    fn response(raw: &RawResponse) -> (r: Result<(), CommandError>)
        ensures
            tells(r, validated(raw@)),
    {
        raw.validate_command()
    }

    open spec fn raw(&self) -> RawCommandView {
        let params = Seq::empty();
        RawCommandView { group: "system"@, command: "sign_out"@, params }
    }

    fn to_raw(&self) -> (r: RawCommand) {
        let r = RawCommand::new("system", "sign_out");
        r
    }
}

/// Asks nothing: keeps the connection alive.
#[derive(Clone, Copy, Debug)]
pub struct HeartBeat {}

impl Command for HeartBeat {
    type Response = ();

    fn response(raw: &RawResponse) -> (r: Result<(), CommandError>)
        ensures
            tells(r, validated(raw@)),
    {
        raw.validate_command()
    }

    open spec fn raw(&self) -> RawCommandView {
        let params = Seq::empty();
        RawCommandView { group: "system"@, command: "heart_beat"@, params }
    }

    fn to_raw(&self) -> (r: RawCommand) {
        let r = RawCommand::new("system", "heart_beat");
        r
    }
}

/// Restarts the device that holds the connection.
#[derive(Clone, Copy, Debug)]
pub struct Reboot {}

impl Command for Reboot {
    type Response = ();

    fn response(raw: &RawResponse) -> (r: Result<(), CommandError>)
        ensures
            tells(r, validated(raw@)),
    {
        raw.validate_command()
    }

    open spec fn raw(&self) -> RawCommandView {
        let params = Seq::empty();
        RawCommandView { group: "system"@, command: "reboot"@, params }
    }

    fn to_raw(&self) -> (r: RawCommand) {
        let r = RawCommand::new("system", "reboot");
        r
    }
}

} // verus!
