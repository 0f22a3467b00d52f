//! Reading the arguments of a command.

use vstd::prelude::*;
use vstd::string::*;
use crate::command::raw::{lookup, RawCommand, RawCommandView};
use crate::data::response::{RawResponse, RawResponseView};
use crate::mock::reply::{
    invalid_argument,
    invalid_argument_error,
    missing_argument,
    missing_argument_error,
};
use crate::text::{
    find_char,
    first_index,
    from_chars,
    lemma_first_index,
    parse_list,
    parse_u64,
    read_list,
    text_u64,
    to_chars,
    FromText,
};

verus! {

/// The text of the argument `name`, which must be there.
pub open spec fn text_arg(
    c: RawCommandView,
    name: Seq<char>,
) -> Result<Seq<char>, RawResponseView> {
    match lookup(c.params, name) {
        Some(t) => Ok(t),
        None => Err(missing_argument(c, name)),
    }
}

/// The value of the argument `name`, which must be there and stand for a
/// value.
pub open spec fn typed_arg<T: FromText>(c: RawCommandView, name: Seq<char>) -> Result<
    T,
    RawResponseView,
> {
    match lookup(c.params, name) {
        None => Err(missing_argument(c, name)),
        Some(t) => match T::read(t) {
            Some(v) => Ok(v),
            None => Err(invalid_argument(c, name, t)),
        },
    }
}

/// The value of the argument `name`, `None` where the argument is missing.
pub open spec fn optional_arg<T: FromText>(c: RawCommandView, name: Seq<char>) -> Result<
    Option<T>,
    RawResponseView,
> {
    match lookup(c.params, name) {
        None => Ok(None),
        Some(t) => match T::read(t) {
            Some(v) => Ok(Some(v)),
            None => Err(invalid_argument(c, name, t)),
        },
    }
}

/// The values of the argument `name`, a list with commas between its
/// elements.
pub open spec fn list_arg<T: FromText>(c: RawCommandView, name: Seq<char>) -> Result<
    Seq<T>,
    RawResponseView,
> {
    match lookup(c.params, name) {
        None => Err(missing_argument(c, name)),
        Some(t) => match read_list::<T>(t) {
            Some(v) => Ok(v),
            None => Err(invalid_argument(c, name, t)),
        },
    }
}

/// The range that a text stands for: two numbers with a comma between
/// them, the first and the last index.
pub open spec fn read_range(s: Seq<char>) -> Option<(usize, usize)> {
    let comma = first_index(s, ',', 0);
    if comma >= s.len() {
        None
    } else {
        match (text_u64(s.take(comma)), text_u64(s.skip(comma + 1))) {
            (Some(first), Some(last)) => if first <= usize::MAX && last <= usize::MAX {
                Some((first as usize, last as usize))
            } else {
                None
            },
            _ => None,
        }
    }
}

/// The range of the argument `name`, `None` where the argument is missing.
pub open spec fn range_arg(c: RawCommandView, name: Seq<char>) -> Result<
    Option<(usize, usize)>,
    RawResponseView,
> {
    match lookup(c.params, name) {
        None => Ok(None),
        Some(t) => match read_range(t) {
            Some(v) => Ok(Some(v)),
            None => Err(invalid_argument(c, name, t)),
        },
    }
}

/// `r` tells what `expected` tells: the same value, or a reply with the
/// same content.
pub open spec fn answered<T>(
    r: Result<T, RawResponse>,
    expected: Result<T, RawResponseView>,
) -> bool {
    match r {
        Ok(v) => expected == Ok::<T, RawResponseView>(v),
        Err(e) => expected == Err::<T, RawResponseView>(e@),
    }
}

/// Reads the text of an argument that must be there.
pub fn parse_text_argument<'a>(command: &'a RawCommand, name: &str) -> (r: Result<
    &'a String,
    RawResponse,
>)
    ensures
        match r {
            Ok(t) => text_arg(command@, name@) == Ok::<Seq<char>, RawResponseView>(t@),
            Err(e) => text_arg(command@, name@) == Err::<Seq<char>, RawResponseView>(e@),
        },
{
    match command.get(name) {
        Some(t) => Ok(t),
        None => Err(missing_argument_error(command, name)),
    }
}

/// Reads an argument that must be there.
pub fn parse_command_argument<T: FromText>(command: &RawCommand, name: &str) -> (r: Result<
    T,
    RawResponse,
>)
    ensures
        answered(r, typed_arg::<T>(command@, name@)),
{
    match command.get(name) {
        None => Err(missing_argument_error(command, name)),
        Some(t) => match T::parse_text(t.as_str()) {
            Some(v) => Ok(v),
            None => Err(invalid_argument_error(command, name, t.as_str())),
        },
    }
}

/// Reads an argument that may be missing.
pub fn parse_command_argument_option<T: FromText>(command: &RawCommand, name: &str) -> (r: Result<
    Option<T>,
    RawResponse,
>)
    ensures
        answered(r, optional_arg::<T>(command@, name@)),
{
    match command.get(name) {
        None => Ok(None),
        Some(t) => match T::parse_text(t.as_str()) {
            Some(v) => Ok(Some(v)),
            None => Err(invalid_argument_error(command, name, t.as_str())),
        },
    }
}

/// Reads an argument that holds a list.
pub fn parse_command_argument_list<T: FromText>(command: &RawCommand, name: &str) -> (r: Result<
    Vec<T>,
    RawResponse,
>)
    ensures
        match r {
            Ok(v) => list_arg::<T>(command@, name@) == Ok::<Seq<T>, RawResponseView>(v@),
            Err(e) => list_arg::<T>(command@, name@) == Err::<Seq<T>, RawResponseView>(e@),
        },
{
    match command.get(name) {
        None => Err(missing_argument_error(command, name)),
        Some(t) => match parse_list::<T>(t.as_str()) {
            Some(v) => Ok(v),
            None => Err(invalid_argument_error(command, name, t.as_str())),
        },
    }
}

/// Reads a range.
pub fn parse_range(s: &str) -> (r: Option<(usize, usize)>)
    ensures
        r == read_range(s@),
{
    let v = to_chars(s);
    let comma = find_char(&v, ',', 0, v.len());
    proof {
        lemma_first_index(v@, ',', 0, comma as int);
    }
    if comma >= v.len() {
        return None;
    }
    let first_text = from_chars(&v, 0, comma);
    let last_text = from_chars(&v, comma + 1, v.len());
    proof {
        assert(first_text@ =~= s@.take(comma as int));
        assert(last_text@ =~= s@.skip(comma + 1));
    }
    match (parse_u64(first_text.as_str()), parse_u64(last_text.as_str())) {
        (Some(first), Some(last)) => {
            if first <= usize::MAX as u64 && last <= usize::MAX as u64 {
                Some((first as usize, last as usize))
            } else {
                None
            }
        },
        _ => None,
    }
}

/// Reads an argument that holds a range and may be missing.
pub fn parse_range_argument(command: &RawCommand, name: &str) -> (r: Result<
    Option<(usize, usize)>,
    RawResponse,
>)
    ensures
        answered(r, range_arg(command@, name@)),
{
    match command.get(name) {
        None => Ok(None),
        Some(t) => match parse_range(t.as_str()) {
            Some(v) => Ok(Some(v)),
            None => Err(invalid_argument_error(command, name, t.as_str())),
        },
    }
}

} // verus!
