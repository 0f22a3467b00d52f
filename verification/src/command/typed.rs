//! What all typed commands have in common.

use vstd::prelude::*;
use crate::command::error::{CommandError, CommandErrorView};
use crate::command::raw::{RawCommand, RawCommandView};
use crate::command::ser::Error;
use crate::data::response::RawResponse;
use crate::views::views;

verus! {

/// A typed command: a value that knows its raw form, and the kind of
/// answer that it gets.
///
/// The raw form follows a few rules. Numbers are written in decimal.
/// Truth values are written `on` and `off`. A value that is absent leaves
/// no parameter. Lists are written with commas between their elements, and
/// an inclusive range as its two ends with a comma between them.
pub trait Command {
    /// What a reply to the command holds.
    type Response;

    /// The raw form of the command.
    spec fn raw(&self) -> RawCommandView;

    /// Writes the command in its raw form.
    fn to_raw(&self) -> (r: RawCommand)
        ensures
            r.wf(),
            r@ == self.raw(),
    ;

    /// Reads a reply to the command: the error that the reply reports
    /// where it reports one, else what the reply holds.
    fn response(raw: &RawResponse) -> Result<Self::Response, CommandError>;
}

/// `r` tells what `expected` tells, where the value is a list.
pub open spec fn told_list<T: View>(
    r: Result<Vec<T>, CommandError>,
    expected: Result<Seq<T::V>, CommandErrorView>,
) -> bool {
    match r {
        Ok(items) => expected == Ok::<Seq<T::V>, CommandErrorView>(views(items@)),
        Err(e) => expected == Err::<Seq<T::V>, CommandErrorView>(e@),
    }
}

impl RawCommand {
    /// The raw form of a typed command. Writing a typed command never
    /// fails.
    pub fn from_command<C: Command>(command: &C) -> (r: Result<RawCommand, Error>)
        ensures
            r matches Ok(raw) && raw.wf() && raw@ == command.raw(),
    {
        Ok(command.to_raw())
    }
}

} // verus!
