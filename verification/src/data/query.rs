//! The message of a reply: a query string of fields, read with the
//! `qstring` crate.

use vstd::prelude::*;
use vstd::string::*;
use crate::text::{find_char, first_index, lemma_first_index, opt_text, to_chars};

verus! {

/// What `qstring` finds for `key` in `message`: the value of the first field
/// of that name after percent-decoding, an empty text for a field without a
/// value, `None` where no field has that name.
pub uninterp spec fn query_value(message: Seq<char>, key: Seq<char>) -> Option<Seq<char>>;

/// A character that takes one byte in UTF-8.
pub open spec fn one_byte(c: char) -> bool {
    c <= '\u{7f}'
}

/// Where the next field begins after the one that begins at `at`: behind
/// an equals sign that stands in front, else behind the next ampersand.
pub open spec fn next_field(message: Seq<char>, at: int) -> int {
    if message[at] == '=' {
        at + 1
    } else {
        first_index(message, '&', at) + 1
    }
}

/// Every field from `at` on begins with a one-byte character.
pub open spec fn fields_scannable(message: Seq<char>, at: int) -> bool
    decreases message.len() - at,
{
    if at < 0 || at >= message.len() {
        true
    } else {
        let next = next_field(message, at);
        one_byte(message[at]) && if at < next < message.len() {
            fields_scannable(message, next)
        } else {
            true
        }
    }
}

/// A message that `qstring` can cut into fields: the message and each of
/// its fields begin with a one-byte character. On any other message its
/// scanner stops at a byte that is no character boundary.
pub open spec fn scannable(message: Seq<char>) -> bool {
    message.len() == 0 || (one_byte(message[0]) && fields_scannable(
        message,
        if message[0] == '?' {
            1
        } else {
            0
        },
    ))
}

/// The value of the field `key` of a message; a message that cannot be cut
/// into fields has none.
pub open spec fn message_field(message: Seq<char>, key: Seq<char>) -> Option<Seq<char>> {
    if scannable(message) {
        query_value(message, key)
    } else {
        None
    }
}

/// `QString::from(message).get(key)`: parses `message` as a query string and
/// returns an owned copy of what `get` finds for `key`. The message must be
/// one whose fields begin with one-byte characters, since the parser slices
/// the first byte off each field.
#[verifier::external_body]
fn query_get(message: &str, key: &str) -> (value: Option<String>)
    requires
        scannable(message@),
    ensures
        opt_text(value) == query_value(message@, key@),
{
    qstring::QString::from(message).get(key).map(String::from)
}

/// Whether `message` can be cut into fields.
pub fn is_scannable(message: &str) -> (r: bool)
    ensures
        r == scannable(message@),
{
    let v = to_chars(message);
    if v.len() == 0 {
        return true;
    }
    if v[0] > '\u{7f}' {
        return false;
    }
    let mut at: usize = if v[0] == '?' {
        1
    } else {
        0
    };
    while at < v.len()
        invariant
            at <= v.len(),
            v@ == message@,
            fields_scannable(v@, at as int) == scannable(v@),
        decreases v.len() - at,
    {
        if v[at] > '\u{7f}' {
            return false;
        }
        if v[at] == '=' {
            at += 1;
        } else {
            let end = find_char(&v, '&', at, v.len());
            proof {
                lemma_first_index(v@, '&', at as int, end as int);
            }
            if end < v.len() {
                at = end + 1;
            } else {
                return true;
            }
        }
    }
    true
}

/// The value of the field `key` of `message`.
pub fn field(message: &str, key: &str) -> (value: Option<String>)
    ensures
        opt_text(value) == message_field(message@, key@),
{
    if is_scannable(message) {
        query_get(message, key)
    } else {
        None
    }
}

} // verus!
