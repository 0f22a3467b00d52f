//! Errors of turning values into raw commands.

use vstd::prelude::*;
use vstd::string::*;
use crate::command::raw::{with_param, Params};
use crate::data::player::PlayerId;
use crate::data::queue::QueueId;
use crate::text::{concat2, concat3, int_text, nat_text, push_u64};

verus! {

/// Why a value could not be written as a raw command.
#[derive(Debug)]
pub enum Error {
    /// A message from the value itself.
    Message(String),
    /// The writer was used out of order.
    Internal(String),
    /// The value at the top is neither a record nor a map; the text names
    /// its kind.
    InvalidTopLevelType(String),
    /// A value of a kind that has no text form stands where a parameter value
    /// is expected; the text names the kind.
    ValueTypeNotSupported(String),
}

/// An `Error` as plain values.
pub ghost enum ErrorView {
    Message(Seq<char>),
    Internal(Seq<char>),
    InvalidTopLevelType(Seq<char>),
    ValueTypeNotSupported(Seq<char>),
}

impl View for Error {
    type V = ErrorView;

    open spec fn view(&self) -> ErrorView {
        match self {
            Error::Message(t) => ErrorView::Message(t@),
            Error::Internal(t) => ErrorView::Internal(t@),
            Error::InvalidTopLevelType(t) => ErrorView::InvalidTopLevelType(t@),
            Error::ValueTypeNotSupported(t) => ErrorView::ValueTypeNotSupported(t@),
        }
    }
}

impl Error {
    /// The error for a top-level value of the kind `t`.
    pub fn invalid_top_level(t: &str) -> (r: Self)
        ensures
            r@ == ErrorView::InvalidTopLevelType(t@),
    {
        Error::InvalidTopLevelType(String::from_str(t))
    }

    /// The error for a parameter value of the kind `t`.
    pub fn value_not_supported(t: &str) -> (r: Self)
        ensures
            r@ == ErrorView::ValueTypeNotSupported(t@),
    {
        Error::ValueTypeNotSupported(String::from_str(t))
    }

    /// What the error says, in words.
    pub open spec fn text(e: ErrorView) -> Seq<char> {
        match e {
            ErrorView::Message(t) => t,
            ErrorView::Internal(t) => "internal error: "@ + t,
            ErrorView::InvalidTopLevelType(t) => "cannot serialize a top-level type of '"@ + t
                + "'"@,
            ErrorView::ValueTypeNotSupported(t) => "value type '"@ + t + "' not supported"@,
        }
    }

    /// What the error says, in words.
    pub fn to_string(&self) -> (s: String)
        ensures
            s@ == Self::text(self@),
    {
        match self {
            Error::Message(t) => t.clone(),
            Error::Internal(t) => concat2("internal error: ", t.as_str()),
            Error::InvalidTopLevelType(t) => concat3(
                "cannot serialize a top-level type of '",
                t.as_str(),
                "'",
            ),
            Error::ValueTypeNotSupported(t) => concat3(
                "value type '",
                t.as_str(),
                "' not supported",
            ),
        }
    }
}

/// The text of a truth value on the wire: `on` or `off`.
pub open spec fn bool_text(b: bool) -> Seq<char> {
    if b {
        "on"@
    } else {
        "off"@
    }
}

/// The text of a truth value on the wire.
pub fn bool_to_str(b: bool) -> (s: &'static str)
    ensures
        s@ == bool_text(b),
{
    if b {
        "on"
    } else {
        "off"
    }
}

/// The text of an inclusive range: first and last number with a comma
/// between them.
pub open spec fn range_text(range: (usize, usize)) -> Seq<char> {
    nat_text(range.0 as nat).push(',') + nat_text(range.1 as nat)
}

/// The text of an inclusive range.
pub fn range_to_string(range: (usize, usize)) -> (s: String)
    ensures
        s@ == range_text(range),
{
    let mut s = String::new();
    push_u64(&mut s, range.0 as u64);
    s.push(',');
    push_u64(&mut s, range.1 as u64);
    assert(s@ =~= range_text(range));
    s
}

/// The text of a list: its elements with commas between them. An element
/// that follows an empty text gets no comma in front.
pub open spec fn joined(elements: Seq<Seq<char>>) -> Seq<char>
    decreases elements.len(),
{
    if elements.len() == 0 {
        Seq::empty()
    } else {
        let front = joined(elements.drop_last());
        if front.len() == 0 {
            elements.last()
        } else {
            front.push(',') + elements.last()
        }
    }
}

/// Writes the elements of a list or tuple into one text.
pub struct BufferedDisplaySerializer {
    output: String,
    elements: Ghost<Seq<Seq<char>>>,
}

impl BufferedDisplaySerializer {
    /// The elements written so far.
    pub closed spec fn elements(&self) -> Seq<Seq<char>> {
        self.elements@
    }

    /// The text holds the elements written so far.
    pub closed spec fn wf(&self) -> bool {
        self.output@ == joined(self.elements@)
    }

    /// A writer that holds nothing yet.
    pub fn new() -> (r: Self)
        ensures
            r.wf(),
            r.elements() == Seq::<Seq<char>>::empty(),
    {
        BufferedDisplaySerializer { output: String::new(), elements: Ghost(Seq::empty()) }
    }

    /// Writes one element. An element without text (an absent value) is
    /// refused: a list cannot hold one.
    pub fn serialize_element(&mut self, element: Option<&str>) -> (r: Result<(), Error>)
        requires
            old(self).wf(),
        ensures
            final(self).wf(),
            match r {
                Ok(()) => element is Some && final(self).elements() == old(self).elements().push(
                    element->0@,
                ),
                Err(e) => element is None && final(self).elements() == old(self).elements() && e@
                    == ErrorView::Message("element should not be None"@),
            },
    {
        match element {
            None => Err(Error::Message(String::from_str("element should not be None"))),
            Some(text) => {
                let ghost before = self.elements@;
                if self.output.as_str().is_empty() {
                    self.output.append(text);
                } else {
                    self.output.push(',');
                    self.output.append(text);
                }
                proof {
                    self.elements@ = before.push(text@);
                    assert(self.elements@.drop_last() =~= before);
                    assert(self.output@ =~= joined(self.elements@));
                }
                Ok(())
            },
        }
    }

    /// The text of all elements.
    pub fn end(self) -> (r: Option<String>)
        requires
            self.wf(),
        ensures
            r matches Some(text) && text@ == joined(self.elements()),
    {
        Some(self.output)
    }
}

/// `params` with `key` set to `value` where there is a value, unchanged
/// where there is none.
pub open spec fn with_opt_param(
    params: Params,
    key: Seq<char>,
    value: Option<Seq<char>>,
) -> Params {
    match value {
        Some(v) => with_param(params, key, v),
        None => params,
    }
}

/// The text of a list of player identifiers.
pub fn join_player_ids(ids: &Vec<PlayerId>) -> (s: String)
    ensures
        s@ == joined(ids@.map_values(|id: PlayerId| int_text(id.0 as int))),
{
    let ghost texts = ids@.map_values(|id: PlayerId| int_text(id.0 as int));
    let mut writer = BufferedDisplaySerializer::new();
    let mut i: usize = 0;
    while i < ids.len()
        invariant
            i <= ids.len(),
            writer.wf(),
            texts == ids@.map_values(|id: PlayerId| int_text(id.0 as int)),
            writer.elements() == texts.take(i as int),
        decreases ids.len() - i,
    {
        let text = ids[i].to_string();
        match writer.serialize_element(Some(text.as_str())) {
            Ok(()) => {},
            Err(_) => {},
        }
        i += 1;
        assert(texts.take(i as int) =~= texts.take(i - 1).push(texts[i - 1]));
    }
    assert(texts.take(i as int) =~= texts);
    match writer.end() {
        Some(text) => text,
        None => String::new(),
    }
}

/// The text of a list of queue places.
pub fn join_queue_ids(ids: &Vec<QueueId>) -> (s: String)
    ensures
        s@ == joined(ids@.map_values(|id: QueueId| int_text(id.0 as int))),
{
    let ghost texts = ids@.map_values(|id: QueueId| int_text(id.0 as int));
    let mut writer = BufferedDisplaySerializer::new();
    let mut i: usize = 0;
    while i < ids.len()
        invariant
            i <= ids.len(),
            writer.wf(),
            texts == ids@.map_values(|id: QueueId| int_text(id.0 as int)),
            writer.elements() == texts.take(i as int),
        decreases ids.len() - i,
    {
        let text = ids[i].to_string();
        match writer.serialize_element(Some(text.as_str())) {
            Ok(()) => {},
            Err(_) => {},
        }
        i += 1;
        assert(texts.take(i as int) =~= texts.take(i - 1).push(texts[i - 1]));
    }
    assert(texts.take(i as int) =~= texts);
    match writer.end() {
        Some(text) => text,
        None => String::new(),
    }
}

} // verus!
