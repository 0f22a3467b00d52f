//! Values in general, and how they are written as raw commands.

use vstd::prelude::*;
use vstd::string::*;
use crate::command::raw::{with_param, Params, RawCommand};
use crate::command::ser::{bool_text, bool_to_str, joined, Error, ErrorView};
use crate::command::ser::BufferedDisplaySerializer;
use crate::text::{i64_to_string, int_text, opt_text, u64_to_string};

verus! {

/// A value of any shape that a command could be made of.
#[derive(Debug)]
pub enum Value {
    /// A truth value.
    Bool(bool),
    /// A whole number.
    Int(i64),
    /// A whole number that is not negative.
    Uint(u64),
    /// One character.
    Char(char),
    /// A text.
    Text(String),
    /// Raw bytes.
    Bytes(Vec<u8>),
    /// Nothing at all.
    Unit,
    /// A name without content.
    UnitStruct,
    /// One case of several, without content.
    UnitVariant,
    /// A value that is absent.
    Absent,
    /// A value that could be absent and is there.
    Present(Box<Value>),
    /// A value under another name.
    Newtype(Box<Value>),
    /// One case of several, with one value.
    NewtypeVariant(Box<Value>),
    /// A list.
    List(Vec<Value>),
    /// A tuple.
    Tuple(Vec<Value>),
    /// A tuple under a name.
    TupleStruct(Vec<Value>),
    /// One case of several, with a tuple.
    TupleVariant(Vec<Value>),
    /// A map from values to values.
    Mapping(Vec<(Value, Value)>),
    /// A record: named fields with their values.
    Struct(Vec<(String, Value)>),
    /// One case of several, with named fields.
    StructVariant(Vec<(String, Value)>),
}

/// The error for an element of a list that is absent.
pub open spec fn absent_element() -> ErrorView {
    ErrorView::Message("element should not be None"@)
}

/// The text of a value at the place of a parameter value: `None` for an
/// absent value, which leaves no parameter.
///
/// Truth values are written `on` and `off`, numbers in decimal, a
/// character and a text as they are. A value under another name is
/// written like the value. Lists and tuples are written as their elements
/// with commas between them, and no element may be absent. Anything else
/// has no text form.
pub open spec fn shown(v: Value) -> Result<Option<Seq<char>>, ErrorView>
    decreases v, elements_of(v).len() + 1,
{
    match v {
        Value::Bool(b) => Ok(Some(bool_text(b))),
        Value::Int(n) => Ok(Some(int_text(n as int))),
        Value::Uint(n) => Ok(Some(int_text(n as int))),
        Value::Char(c) => Ok(Some(seq![c])),
        Value::Text(t) => Ok(Some(t@)),
        Value::Bytes(_) => Err(ErrorView::ValueTypeNotSupported("[u8]"@)),
        Value::Unit => Err(ErrorView::ValueTypeNotSupported("unit"@)),
        Value::UnitStruct => Err(ErrorView::ValueTypeNotSupported("unit struct"@)),
        Value::UnitVariant => Err(ErrorView::ValueTypeNotSupported("unit variant"@)),
        Value::Absent => Ok(None),
        Value::Present(inner) => shown(*inner),
        Value::Newtype(inner) => shown(*inner),
        Value::NewtypeVariant(inner) => shown(*inner),
        Value::List(elements) => match shown_elements(v, elements@.len()) {
            Ok(texts) => Ok(Some(joined(texts))),
            Err(e) => Err(e),
        },
        Value::Tuple(elements) => match shown_elements(v, elements@.len()) {
            Ok(texts) => Ok(Some(joined(texts))),
            Err(e) => Err(e),
        },
        Value::TupleStruct(_) => Err(ErrorView::ValueTypeNotSupported("tuple struct"@)),
        Value::TupleVariant(_) => Err(ErrorView::ValueTypeNotSupported("tuple variant"@)),
        Value::Mapping(_) => Err(ErrorView::ValueTypeNotSupported("map"@)),
        Value::Struct(_) => Err(ErrorView::ValueTypeNotSupported("struct"@)),
        Value::StructVariant(_) => Err(ErrorView::ValueTypeNotSupported("struct variant"@)),
    }
}

/// The elements of a list or tuple.
pub open spec fn elements_of(v: Value) -> Seq<Value> {
    match v {
        Value::List(elements) => elements@,
        Value::Tuple(elements) => elements@,
        _ => Seq::empty(),
    }
}

/// The texts of the first `n` elements of a list or tuple; an error where
/// one of them has no text form or is absent.
pub open spec fn shown_elements(v: Value, n: nat) -> Result<Seq<Seq<char>>, ErrorView>
    decreases v, n,
{
    if n == 0 || n > elements_of(v).len() {
        Ok(Seq::empty())
    } else {
        match shown_elements(v, (n - 1) as nat) {
            Err(e) => Err(e),
            Ok(front) => match shown(elements_of(v)[n - 1]) {
                Err(e) => Err(e),
                Ok(None) => Err(absent_element()),
                Ok(Some(text)) => Ok(front.push(text)),
            },
        }
    }
}

/// The name of the kind of a value, as errors give it.
pub open spec fn kind_name(v: Value) -> Seq<char> {
    match v {
        Value::Bool(_) => "bool"@,
        Value::Int(_) => "i64"@,
        Value::Uint(_) => "u64"@,
        Value::Char(_) => "char"@,
        Value::Text(_) => "str"@,
        Value::Bytes(_) => "[u8]"@,
        Value::Unit => "unit"@,
        Value::UnitStruct => "unit struct"@,
        Value::UnitVariant => "unit variant"@,
        Value::Absent => "None"@,
        Value::Present(_) => "Some(T)"@,
        Value::Newtype(_) => "newtype"@,
        Value::NewtypeVariant(_) => "newtype variant"@,
        Value::List(_) => "sequence"@,
        Value::Tuple(_) => "tuple"@,
        Value::TupleStruct(_) => "tuple struct"@,
        Value::TupleVariant(_) => "tuple variant"@,
        Value::Mapping(_) => "map"@,
        Value::Struct(_) => "struct"@,
        Value::StructVariant(_) => "struct variant"@,
    }
}

/// The error for a key of a map that is absent.
pub open spec fn absent_key() -> ErrorView {
    ErrorView::Internal("key should not be 'None'"@)
}

/// The parameters after one more entry: the key set to the text of the
/// value, or nothing set where the value is absent.
pub open spec fn with_entry(params: Params, key: Seq<char>, value: Value) -> Result<
    Params,
    ErrorView,
> {
    match shown(value) {
        Err(e) => Err(e),
        Ok(None) => Ok(params),
        Ok(Some(text)) => Ok(with_param(params, key, text)),
    }
}

/// The parameters that the first `n` fields of a record make.
pub open spec fn written_fields(fields: Seq<(String, Value)>, n: nat) -> Result<Params, ErrorView>
    decreases n,
{
    if n == 0 || n > fields.len() {
        Ok(Seq::empty())
    } else {
        match written_fields(fields, (n - 1) as nat) {
            Err(e) => Err(e),
            Ok(params) => with_entry(params, fields[n - 1].0@, fields[n - 1].1),
        }
    }
}

/// The parameters that the first `n` entries of a map make.
pub open spec fn written_entries(entries: Seq<(Value, Value)>, n: nat) -> Result<Params, ErrorView>
    decreases n,
{
    if n == 0 || n > entries.len() {
        Ok(Seq::empty())
    } else {
        match written_entries(entries, (n - 1) as nat) {
            Err(e) => Err(e),
            Ok(params) => match shown(entries[n - 1].0) {
                Err(e) => Err(e),
                Ok(None) => Err(absent_key()),
                Ok(Some(key)) => with_entry(params, key, entries[n - 1].1),
            },
        }
    }
}

/// The parameters that a value makes at the top of a command. The value
/// must be a record or a map, under another name or not; each field or
/// entry makes one parameter, unless its value is absent.
pub open spec fn written(v: Value) -> Result<Params, ErrorView>
    decreases v,
{
    match v {
        Value::Struct(fields) => written_fields(fields@, fields@.len()),
        Value::Mapping(entries) => written_entries(entries@, entries@.len()),
        Value::Newtype(inner) => written(*inner),
        _ => Err(ErrorView::InvalidTopLevelType(kind_name(v))),
    }
}

/// `r` tells what `expected` tells of a text that may be absent.
pub open spec fn shows(r: Result<Option<String>, Error>, expected: Result<
    Option<Seq<char>>,
    ErrorView,
>) -> bool {
    match r {
        Ok(text) => expected == Ok::<Option<Seq<char>>, ErrorView>(opt_text(text)),
        Err(e) => expected == Err::<Option<Seq<char>>, ErrorView>(e@),
    }
}

fn display_elements(parent: &Value, elements: &Vec<Value>) -> (r: Result<Option<String>, Error>)
    requires
        *parent == Value::List(*elements) || *parent == Value::Tuple(*elements),
    ensures
        shows(r, shown(*parent)),
    decreases parent, 0nat,
{
    let mut writer = BufferedDisplaySerializer::new();
    let mut i: usize = 0;
    while i < elements.len()
        invariant
            i <= elements.len(),
            writer.wf(),
            *parent == Value::List(*elements) || *parent == Value::Tuple(*elements),
            shown_elements(*parent, i as nat) == Ok::<Seq<Seq<char>>, ErrorView>(
                writer.elements(),
            ),
        decreases elements.len() - i,
    {
        let text = match display(&elements[i]) {
            Ok(text) => text,
            Err(e) => {
                proof {
                    lemma_shown_elements_error(*parent, (i + 1) as nat, elements@.len());
                }
                return Err(e);
            },
        };
        let element = match &text {
            Some(t) => Some(t.as_str()),
            None => None,
        };
        match writer.serialize_element(element) {
            Ok(()) => {},
            Err(e) => {
                proof {
                    lemma_shown_elements_error(*parent, (i + 1) as nat, elements@.len());
                }
                return Err(e);
            },
        }
        i += 1;
    }
    match writer.end() {
        Some(text) => Ok(Some(text)),
        None => Ok(None),
    }
}

/// An error among the first elements is the error of all elements.
pub proof fn lemma_shown_elements_error(v: Value, k: nat, n: nat)
    requires
        k <= n <= elements_of(v).len(),
        shown_elements(v, k) is Err,
    ensures
        shown_elements(v, n) == shown_elements(v, k),
    decreases n,
{
    if k < n {
        lemma_shown_elements_error(v, k, (n - 1) as nat);
    }
}

/// Writes a value at the place of a parameter value.
pub fn display(value: &Value) -> (r: Result<Option<String>, Error>)
    ensures
        shows(r, shown(*value)),
    decreases value, 1nat,
{
    match value {
        Value::Bool(b) => Ok(Some(String::from_str(bool_to_str(*b)))),
        Value::Int(n) => Ok(Some(i64_to_string(*n))),
        Value::Uint(n) => Ok(Some(u64_to_string(*n))),
        Value::Char(c) => {
            let mut text = String::new();
            text.push(*c);
            assert(text@ =~= seq![*c]);
            Ok(Some(text))
        },
        Value::Text(t) => Ok(Some(t.clone())),
        Value::Bytes(_) => Err(Error::value_not_supported("[u8]")),
        Value::Unit => Err(Error::value_not_supported("unit")),
        Value::UnitStruct => Err(Error::value_not_supported("unit struct")),
        Value::UnitVariant => Err(Error::value_not_supported("unit variant")),
        Value::Absent => Ok(None),
        Value::Present(inner) => display(inner),
        Value::Newtype(inner) => display(inner),
        Value::NewtypeVariant(inner) => display(inner),
        Value::List(elements) => display_elements(value, elements),
        Value::Tuple(elements) => display_elements(value, elements),
        Value::TupleStruct(_) => Err(Error::value_not_supported("tuple struct")),
        Value::TupleVariant(_) => Err(Error::value_not_supported("tuple variant")),
        Value::Mapping(_) => Err(Error::value_not_supported("map")),
        Value::Struct(_) => Err(Error::value_not_supported("struct")),
        Value::StructVariant(_) => Err(Error::value_not_supported("struct variant")),
    }
}

/// The name of the kind of a value.
pub fn kind_of(value: &Value) -> (r: &'static str)
    ensures
        r@ == kind_name(*value),
{
    match value {
        Value::Bool(_) => "bool",
        Value::Int(_) => "i64",
        Value::Uint(_) => "u64",
        Value::Char(_) => "char",
        Value::Text(_) => "str",
        Value::Bytes(_) => "[u8]",
        Value::Unit => "unit",
        Value::UnitStruct => "unit struct",
        Value::UnitVariant => "unit variant",
        Value::Absent => "None",
        Value::Present(_) => "Some(T)",
        Value::Newtype(_) => "newtype",
        Value::NewtypeVariant(_) => "newtype variant",
        Value::List(_) => "sequence",
        Value::Tuple(_) => "tuple",
        Value::TupleStruct(_) => "tuple struct",
        Value::TupleVariant(_) => "tuple variant",
        Value::Mapping(_) => "map",
        Value::Struct(_) => "struct",
        Value::StructVariant(_) => "struct variant",
    }
}

/// An error among the first fields is the error of all fields.
pub proof fn lemma_written_fields_error(fields: Seq<(String, Value)>, k: nat, n: nat)
    requires
        k <= n <= fields.len(),
        written_fields(fields, k) is Err,
    ensures
        written_fields(fields, n) == written_fields(fields, k),
    decreases n,
{
    if k < n {
        lemma_written_fields_error(fields, k, (n - 1) as nat);
    }
}

/// An error among the first entries is the error of all entries.
pub proof fn lemma_written_entries_error(entries: Seq<(Value, Value)>, k: nat, n: nat)
    requires
        k <= n <= entries.len(),
        written_entries(entries, k) is Err,
    ensures
        written_entries(entries, n) == written_entries(entries, k),
    decreases n,
{
    if k < n {
        lemma_written_entries_error(entries, k, (n - 1) as nat);
    }
}

fn write_entry(command: &mut RawCommand, key: &str, value: &Value) -> (r: Result<(), Error>)
    requires
        old(command).wf(),
    ensures
        final(command).wf(),
        final(command)@.group == old(command)@.group,
        final(command)@.command == old(command)@.command,
        match r {
            Ok(()) => with_entry(old(command)@.params, key@, *value) == Ok::<Params, ErrorView>(
                final(command)@.params,
            ),
            Err(e) => with_entry(old(command)@.params, key@, *value) == Err::<Params, ErrorView>(
                e@,
            ) && final(command)@ == old(command)@,
        },
{
    match display(value) {
        Err(e) => Err(e),
        Ok(None) => Ok(()),
        Ok(Some(text)) => {
            command.param(key, text.as_str());
            Ok(())
        },
    }
}

/// Writes a value as the command `name` of the group `group`.
pub fn to_raw_command(group: &str, name: &str, value: &Value) -> (r: Result<RawCommand, Error>)
    ensures
        match r {
            Ok(c) => c.wf() && written(*value) == Ok::<Params, ErrorView>(c@.params) && c@.group
                == group@ && c@.command == name@,
            Err(e) => written(*value) == Err::<Params, ErrorView>(e@),
        },
    decreases value,
{
    match value {
        Value::Struct(fields) => {
            let mut command = RawCommand::new(group, name);
            let mut i: usize = 0;
            while i < fields.len()
                invariant
                    i <= fields.len(),
                    *value == Value::Struct(*fields),
                    command.wf(),
                    command@.group == group@,
                    command@.command == name@,
                    written_fields(fields@, i as nat) == Ok::<Params, ErrorView>(command@.params),
                decreases fields.len() - i,
            {
                match write_entry(&mut command, fields[i].0.as_str(), &fields[i].1) {
                    Ok(()) => {},
                    Err(e) => {
                        proof {
                            lemma_written_fields_error(fields@, (i + 1) as nat, fields@.len());
                        }
                        return Err(e);
                    },
                }
                i += 1;
            }
            Ok(command)
        },
        Value::Mapping(entries) => {
            let mut command = RawCommand::new(group, name);
            let mut i: usize = 0;
            while i < entries.len()
                invariant
                    i <= entries.len(),
                    *value == Value::Mapping(*entries),
                    command.wf(),
                    command@.group == group@,
                    command@.command == name@,
                    written_entries(entries@, i as nat) == Ok::<Params, ErrorView>(
                        command@.params,
                    ),
                decreases entries.len() - i,
            {
                let key = match display(&entries[i].0) {
                    Ok(Some(key)) => key,
                    Ok(None) => {
                        proof {
                            lemma_written_entries_error(entries@, (i + 1) as nat, entries@.len());
                        }
                        return Err(Error::Internal(String::from_str("key should not be 'None'")));
                    },
                    Err(e) => {
                        proof {
                            lemma_written_entries_error(entries@, (i + 1) as nat, entries@.len());
                        }
                        return Err(e);
                    },
                };
                match write_entry(&mut command, key.as_str(), &entries[i].1) {
                    Ok(()) => {},
                    Err(e) => {
                        proof {
                            lemma_written_entries_error(entries@, (i + 1) as nat, entries@.len());
                        }
                        return Err(e);
                    },
                }
                i += 1;
            }
            Ok(command)
        },
        Value::Newtype(inner) => to_raw_command(group, name, inner),
        _ => Err(Error::invalid_top_level(kind_of(value))),
    }
}

} // verus!
