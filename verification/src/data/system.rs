//! Data types of the commands that concern the system as a whole.

use vstd::prelude::*;
use vstd::string::*;
use crate::command::error::{missing_field, CommandError, CommandErrorView};
use crate::data::query::{field, message_field};
use crate::text::{FromText, opt_str, opt_str_text};

verus! {

/// Whether the system sends change events on this connection.
#[derive(Clone, Copy, Debug, PartialEq, Eq, Hash, Structural)]
pub enum ChangeEventsEnabled {
    /// Change events are sent.
    On,
    /// No change events are sent.
    Off,
}

impl ChangeEventsEnabled {
    /// The word that stands for this value on the wire.
    pub open spec fn wire(self) -> Seq<char> {
        match self {
            ChangeEventsEnabled::On => "on"@,
            ChangeEventsEnabled::Off => "off"@,
        }
    }

    /// The value that a word stands for, `None` for an unknown word.
    pub open spec fn from_wire(s: Seq<char>) -> Option<Self> {
        if s == "on"@ {
            Some(ChangeEventsEnabled::On)
        } else if s == "off"@ {
            Some(ChangeEventsEnabled::Off)
        } else {
            None
        }
    }

    /// The word that stands for this value on the wire.
    pub fn as_str(&self) -> (s: &'static str)
        ensures
            s@ == self.wire(),
    {
        match self {
            ChangeEventsEnabled::On => "on",
            ChangeEventsEnabled::Off => "off",
        }
    }

    /// The wire word as an owned string.
    pub fn to_string(&self) -> (s: String)
        ensures
            s@ == self.wire(),
    {
        String::from_str(self.as_str())
    }

    /// Reads a wire word. Matching is exact: case counts.
    pub fn parse(s: &str) -> (r: Option<Self>)
        ensures
            r == Self::from_wire(s@),
    {
        if s.eq("on") {
            Some(ChangeEventsEnabled::On)
        } else if s.eq("off") {
            Some(ChangeEventsEnabled::Off)
        } else {
            None
        }
    }

    /// Reading the word of a value gives that value back.
    pub proof fn lemma_wire_round_trip(self)
        ensures
            Self::from_wire(self.wire()) == Some(self),
    {
        reveal_strlit("on");
        reveal_strlit("off");
        match self {
            ChangeEventsEnabled::On => {},
            ChangeEventsEnabled::Off => {
                assert("off"@.len() != "on"@.len());
            },
        }
    }
}

impl FromText for ChangeEventsEnabled {
    open spec fn read(s: Seq<char>) -> Option<Self> {
        Self::from_wire(s)
    }

    fn parse_text(s: &str) -> (r: Option<Self>) {
        Self::parse(s)
    }
}

/// Status of the account of the system.
#[derive(Debug)]
pub enum AccountStatus {
    /// Nobody is signed in.
    SignedOut,
    /// Somebody is signed in, under this user name.
    SignedIn(String),
}

/// An `AccountStatus` as plain values.
pub ghost enum AccountStatusView {
    SignedOut,
    SignedIn(Seq<char>),
}

impl View for AccountStatus {
    type V = AccountStatusView;

    open spec fn view(&self) -> AccountStatusView {
        match self {
            AccountStatus::SignedOut => AccountStatusView::SignedOut,
            AccountStatus::SignedIn(name) => AccountStatusView::SignedIn(name@),
        }
    }
}

impl Clone for AccountStatus {
    fn clone(&self) -> (r: Self)
        ensures
            r@ == self@,
    {
        match self {
            AccountStatus::SignedOut => AccountStatus::SignedOut,
            AccountStatus::SignedIn(name) => AccountStatus::SignedIn(name.clone()),
        }
    }
}

/// The account status that the fields of a message tell: `signed_out`
/// decides first, then `signed_in` with the user name in `un`.
pub open spec fn account_of_fields(
    signed_out: Option<Seq<char>>,
    signed_in: Option<Seq<char>>,
    un: Option<Seq<char>>,
) -> Result<AccountStatusView, CommandErrorView> {
    if signed_out is Some {
        Ok(AccountStatusView::SignedOut)
    } else if signed_in is Some {
        match un {
            Some(name) => Ok(AccountStatusView::SignedIn(name)),
            None => Err(missing_field("message.un"@)),
        }
    } else {
        Err(missing_field("message.signed_out/signed_in"@))
    }
}

/// The account status that a message tells.
pub open spec fn account_of_message(message: Seq<char>) -> Result<
    AccountStatusView,
    CommandErrorView,
> {
    account_of_fields(
        message_field(message, "signed_out"@),
        message_field(message, "signed_in"@),
        message_field(message, "un"@),
    )
}

impl AccountStatus {
    /// The account status that the fields of a message tell.
    pub fn from_fields(
        signed_out: Option<&str>,
        signed_in: Option<&str>,
        un: Option<&str>,
    ) -> (r: Result<Self, CommandError>)
        ensures
            match r {
                Ok(status) => account_of_fields(
                    opt_str_text(signed_out),
                    opt_str_text(signed_in),
                    opt_str_text(un),
                ) == Ok::<AccountStatusView, CommandErrorView>(status@),
                Err(e) => account_of_fields(
                    opt_str_text(signed_out),
                    opt_str_text(signed_in),
                    opt_str_text(un),
                ) == Err::<AccountStatusView, CommandErrorView>(e@),
            },
    {
        if signed_out.is_some() {
            Ok(AccountStatus::SignedOut)
        } else if signed_in.is_some() {
            match un {
                Some(name) => Ok(AccountStatus::SignedIn(String::from_str(name))),
                None => Err(CommandError::response_missing_field("message.un")),
            }
        } else {
            Err(CommandError::response_missing_field("message.signed_out/signed_in"))
        }
    }

    /// Reads the account status out of the message of a reply or event.
    pub fn from_message(message: &str) -> (r: Result<Self, CommandError>)
        ensures
            match r {
                Ok(status) => account_of_message(message@) == Ok::<
                    AccountStatusView,
                    CommandErrorView,
                >(status@),
                Err(e) => account_of_message(message@) == Err::<
                    AccountStatusView,
                    CommandErrorView,
                >(e@),
            },
    {
        let signed_out = field(message, "signed_out");
        let signed_in = field(message, "signed_in");
        let un = field(message, "un");
        Self::from_fields(opt_str(&signed_out), opt_str(&signed_in), opt_str(&un))
    }
}

} // verus!
