//! JSON values as plain data.

use vstd::prelude::*;
use vstd::string::*;
use crate::command::error::{incorrect_data_type, missing_field, CommandError, CommandErrorView};
use crate::text::opt_text;

verus! {

/// A JSON value.
#[derive(Debug)]
pub enum JsonValue {
    /// `null`.
    Null,
    /// `true` or `false`.
    Flag(bool),
    /// A number without sign or fraction.
    PosInt(u64),
    /// A negative number without fraction.
    NegInt(i64),
    /// Any other number, as it was written.
    Real(String),
    /// A string.
    Text(String),
    /// An array.
    Array(Vec<JsonValue>),
    /// An object: its members in the order in which they were written.
    Object(Vec<(String, JsonValue)>),
}

/// A JSON value as plain values.
pub ghost enum JsonView {
    Null,
    Flag(bool),
    PosInt(u64),
    NegInt(i64),
    Real(Seq<char>),
    Text(Seq<char>),
    Array(Seq<JsonView>),
    Object(Seq<(Seq<char>, JsonView)>),
}

/// The plain value of a JSON value.
pub open spec fn json_view(j: JsonValue) -> JsonView
    decreases j,
{
    match j {
        JsonValue::Null => JsonView::Null,
        JsonValue::Flag(b) => JsonView::Flag(b),
        JsonValue::PosInt(n) => JsonView::PosInt(n),
        JsonValue::NegInt(n) => JsonView::NegInt(n),
        JsonValue::Real(t) => JsonView::Real(t@),
        JsonValue::Text(t) => JsonView::Text(t@),
        JsonValue::Array(items) => JsonView::Array(
            Seq::new(
                items@.len(),
                |i: int|
                    if 0 <= i < items@.len() {
                        json_view(items@[i])
                    } else {
                        JsonView::Null
                    },
            ),
        ),
        JsonValue::Object(members) => JsonView::Object(
            Seq::new(
                members@.len(),
                |i: int|
                    if 0 <= i < members@.len() {
                        (members@[i].0@, json_view(members@[i].1))
                    } else {
                        (Seq::empty(), JsonView::Null)
                    },
            ),
        ),
    }
}

impl View for JsonValue {
    type V = JsonView;

    open spec fn view(&self) -> JsonView {
        json_view(*self)
    }
}

impl JsonView {
    /// Where the first member named `key` stands among `members`.
    pub open spec fn member_index(members: Seq<(Seq<char>, JsonView)>, key: Seq<char>) -> Option<
        int,
    >
        decreases members.len(),
    {
        if members.len() == 0 {
            None
        } else {
            match Self::member_index(members.drop_last(), key) {
                Some(i) => Some(i),
                None => if members.last().0 == key {
                    Some(members.len() - 1)
                } else {
                    None
                },
            }
        }
    }

    /// The first member named `key` of an object; `None` for other values
    /// and for objects without such a member.
    pub open spec fn get(self, key: Seq<char>) -> Option<JsonView> {
        match self {
            JsonView::Object(members) => match Self::member_index(members, key) {
                Some(i) => Some(members[i].1),
                None => None,
            },
            _ => None,
        }
    }

    /// The text of a string value.
    pub open spec fn as_text(self) -> Option<Seq<char>> {
        match self {
            JsonView::Text(t) => Some(t),
            _ => None,
        }
    }

    /// The number held, where it is whole and fits `i64`.
    pub open spec fn as_i64(self) -> Option<i64> {
        match self {
            JsonView::PosInt(n) => if n <= i64::MAX {
                Some(n as i64)
            } else {
                None
            },
            JsonView::NegInt(n) => Some(n),
            _ => None,
        }
    }

    /// The number held, where it is whole and not negative.
    pub open spec fn as_u64(self) -> Option<u64> {
        match self {
            JsonView::PosInt(n) => Some(n),
            JsonView::NegInt(n) => if n >= 0 {
                Some(n as u64)
            } else {
                None
            },
            _ => None,
        }
    }

    /// The items of an array.
    pub open spec fn as_array(self) -> Option<Seq<JsonView>> {
        match self {
            JsonView::Array(items) => Some(items),
            _ => None,
        }
    }

    /// Whether the value is `null`.
    pub open spec fn is_null(self) -> bool {
        self is Null
    }
}

/// The view of an optional JSON value.
pub open spec fn opt_json(j: Option<&JsonValue>) -> Option<JsonView> {
    match j {
        Some(v) => Some(v@),
        None => None,
    }
}

/// What `member_index` finds: the first member of that name, or that there
/// is none.
pub proof fn lemma_member_index(members: Seq<(Seq<char>, JsonView)>, key: Seq<char>)
    ensures
        match JsonView::member_index(members, key) {
            Some(i) => 0 <= i < members.len() && members[i].0 == key,
            None => forall|j: int| 0 <= j < members.len() ==> members[j].0 != key,
        },
    decreases members.len(),
{
    if members.len() > 0 {
        let front = members.drop_last();
        lemma_member_index(front, key);
        match JsonView::member_index(front, key) {
            Some(i) => {
                assert(front[i] == members[i]);
            },
            None => {
                assert forall|j: int| 0 <= j < front.len() implies members[j].0 != key by {
                    assert(front[j] == members[j]);
                }
            },
        }
    }
}

/// The member that `get` finds for a name is the first of that name: a
/// member with no member of its name before it is the one found.
pub proof fn lemma_get_member(members: Seq<(Seq<char>, JsonView)>, k: int)
    requires
        0 <= k < members.len(),
        forall|i: int| 0 <= i < k ==> members[i].0 != members[k].0,
    ensures
        JsonView::member_index(members, members[k].0) == Some(k),
        JsonView::Object(members).get(members[k].0) == Some(members[k].1),
    decreases members.len(),
{
    let key = members[k].0;
    let front = members.drop_last();
    if k == members.len() - 1 {
        lemma_member_index(front, key);
        match JsonView::member_index(front, key) {
            Some(i) => {
                assert(front[i] == members[i]);
            },
            None => {},
        }
    } else {
        assert(front[k] == members[k]);
        assert forall|i: int| 0 <= i < k implies front[i].0 != front[k].0 by {
            assert(front[i] == members[i]);
        }
        lemma_get_member(front, k);
    }
}

/// A member found in a prefix is found at the same place in the whole.
pub proof fn lemma_member_index_prefix(
    members: Seq<(Seq<char>, JsonView)>,
    key: Seq<char>,
    k: int,
)
    requires
        0 <= k <= members.len(),
        JsonView::member_index(members.take(k), key) is Some,
    ensures
        JsonView::member_index(members, key) == JsonView::member_index(members.take(k), key),
    decreases members.len(),
{
    if k == members.len() {
        assert(members.take(k) =~= members);
    } else {
        assert(members.drop_last().take(k) =~= members.take(k));
        lemma_member_index_prefix(members.drop_last(), key, k);
    }
}

impl JsonValue {
    /// The members of an object as plain values.
    pub open spec fn member_views(members: Seq<(String, JsonValue)>) -> Seq<
        (Seq<char>, JsonView),
    > {
        Seq::new(members.len(), |i: int| (members[i].0@, members[i].1@))
    }

    /// The items of an array as plain values.
    pub open spec fn item_views(items: Seq<JsonValue>) -> Seq<JsonView> {
        Seq::new(items.len(), |i: int| items[i]@)
    }

    /// The view of an object is made of the views of its members, that of
    /// an array of the views of its items.
    pub proof fn lemma_view(&self)
        ensures
            self matches JsonValue::Object(members) ==> self@ == JsonView::Object(
                Self::member_views(members@),
            ),
            self matches JsonValue::Array(items) ==> self@ == JsonView::Array(
                Self::item_views(items@),
            ),
    {
        match self {
            JsonValue::Object(members) => {
                assert(self@ is Object);
                let a = self@->Object_0;
                let b = Self::member_views(members@);
                assert(a.len() == b.len());
                assert forall|i: int| 0 <= i < a.len() implies a[i] == b[i] by {}
                assert(a =~= b);
            },
            JsonValue::Array(items) => {
                assert(self@ is Array);
                let a = self@->Array_0;
                let b = Self::item_views(items@);
                assert(a.len() == b.len());
                assert forall|i: int| 0 <= i < a.len() implies a[i] == b[i] by {}
                assert(a =~= b);
            },
            _ => {},
        }
    }

    /// Where the first member named `key` stands among `members`.
    pub fn index_of(members: &Vec<(String, JsonValue)>, key: &str) -> (r: Option<usize>)
        ensures
            match r {
                Some(i) => i < members.len() && JsonView::member_index(
                    Self::member_views(members@),
                    key@,
                ) == Some(i as int),
                None => JsonView::member_index(Self::member_views(members@), key@) is None,
            },
    {
        let ghost all = Self::member_views(members@);
        let mut i: usize = 0;
        while i < members.len()
            invariant
                i <= members.len(),
                all == Self::member_views(members@),
                JsonView::member_index(all.take(i as int), key@) is None,
            decreases members.len() - i,
        {
            proof {
                assert(all.take(i + 1).drop_last() =~= all.take(i as int));
                assert(all.take(i + 1).last() == all[i as int]);
            }
            if members[i].0.as_str().eq(key) {
                proof {
                    lemma_member_index_prefix(all, key@, i + 1);
                }
                return Some(i);
            }
            i += 1;
        }
        proof {
            assert(all.take(i as int) =~= all);
        }
        None
    }

    /// The first member named `key` of an object.
    pub fn get(&self, key: &str) -> (r: Option<&JsonValue>)
        ensures
            opt_json(r) == self@.get(key@),
    {
        proof {
            self.lemma_view();
        }
        match self {
            JsonValue::Object(members) => match Self::index_of(members, key) {
                Some(i) => Some(&members[i].1),
                None => None,
            },
            _ => None,
        }
    }

    /// The text of a string value.
    pub fn as_str(&self) -> (r: Option<&str>)
        ensures
            crate::text::opt_str_text(r) == self@.as_text(),
    {
        match self {
            JsonValue::Text(t) => Some(t.as_str()),
            _ => None,
        }
    }

    /// The number held, where it is whole and fits `i64`.
    pub fn as_i64(&self) -> (r: Option<i64>)
        ensures
            r == self@.as_i64(),
    {
        match self {
            JsonValue::PosInt(n) => if *n <= 0x7fff_ffff_ffff_ffff {
                Some(*n as i64)
            } else {
                None
            },
            JsonValue::NegInt(n) => Some(*n),
            _ => None,
        }
    }

    /// The number held, where it is whole and not negative.
    pub fn as_u64(&self) -> (r: Option<u64>)
        ensures
            r == self@.as_u64(),
    {
        match self {
            JsonValue::PosInt(n) => Some(*n),
            JsonValue::NegInt(n) => if *n >= 0 {
                Some(*n as u64)
            } else {
                None
            },
            _ => None,
        }
    }

    /// The items of an array.
    pub fn as_array(&self) -> (r: Option<&Vec<JsonValue>>)
        ensures
            match r {
                Some(items) => self@.as_array() == Some(Self::item_views(items@)),
                None => self@.as_array() is None,
            },
    {
        proof {
            self.lemma_view();
        }
        match self {
            JsonValue::Array(items) => Some(items),
            _ => None,
        }
    }

    /// Whether the value is `null`.
    pub fn is_null(&self) -> (r: bool)
        ensures
            r == self@.is_null(),
    {
        match self {
            JsonValue::Null => true,
            _ => false,
        }
    }

    /// A whole number: held as `PosInt` where it is not negative.
    pub fn from_i64(n: i64) -> (r: Self)
        ensures
            r@.as_i64() == Some(n),
            r@ == if n >= 0 {
                JsonView::PosInt(n as u64)
            } else {
                JsonView::NegInt(n)
            },
    {
        if n >= 0 {
            JsonValue::PosInt(n as u64)
        } else {
            JsonValue::NegInt(n)
        }
    }

    /// A string value.
    pub fn text(t: &str) -> (r: Self)
        ensures
            r@ == JsonView::Text(t@),
    {
        JsonValue::Text(String::from_str(t))
    }
}

/// The JSON number that holds `n`.
pub open spec fn int_json(n: i64) -> JsonView {
    if n >= 0 {
        JsonView::PosInt(n as u64)
    } else {
        JsonView::NegInt(n)
    }
}

/// The JSON value of an optional text: `null` where there is none.
pub open spec fn opt_text_json(t: Option<Seq<char>>) -> JsonView {
    match t {
        Some(text) => JsonView::Text(text),
        None => JsonView::Null,
    }
}

/// The JSON value of an optional number: `null` where there is none.
pub open spec fn opt_int_json(n: Option<i64>) -> JsonView {
    match n {
        Some(value) => int_json(value),
        None => JsonView::Null,
    }
}

/// The member `key` of an object, which must be there.
pub open spec fn member(j: JsonView, key: Seq<char>) -> Result<JsonView, CommandErrorView> {
    match j.get(key) {
        Some(v) => Ok(v),
        None => Err(missing_field(key)),
    }
}

/// The text of the member `key`, which must be there and be a string.
pub open spec fn member_text(j: JsonView, key: Seq<char>) -> Result<Seq<char>, CommandErrorView> {
    match j.get(key) {
        None => Err(missing_field(key)),
        Some(v) => match v.as_text() {
            Some(t) => Ok(t),
            None => Err(incorrect_data_type("string"@, key)),
        },
    }
}

/// The text of the member `key`, `None` where the member is missing or
/// `null`.
pub open spec fn member_opt_text(j: JsonView, key: Seq<char>) -> Result<
    Option<Seq<char>>,
    CommandErrorView,
> {
    match j.get(key) {
        None => Ok(None),
        Some(v) => if v.is_null() {
            Ok(None)
        } else {
            match v.as_text() {
                Some(t) => Ok(Some(t)),
                None => Err(incorrect_data_type("string"@, key)),
            }
        },
    }
}

/// The number of the member `key`, which must be there and be a whole
/// number that fits `i64`.
pub open spec fn member_i64(j: JsonView, key: Seq<char>) -> Result<i64, CommandErrorView> {
    match j.get(key) {
        None => Err(missing_field(key)),
        Some(v) => match v.as_i64() {
            Some(n) => Ok(n),
            None => Err(incorrect_data_type("integer"@, key)),
        },
    }
}

/// The number of the member `key`, `None` where the member is missing or
/// `null`.
pub open spec fn member_opt_i64(j: JsonView, key: Seq<char>) -> Result<
    Option<i64>,
    CommandErrorView,
> {
    match j.get(key) {
        None => Ok(None),
        Some(v) => if v.is_null() {
            Ok(None)
        } else {
            match v.as_i64() {
                Some(n) => Ok(Some(n)),
                None => Err(incorrect_data_type("integer"@, key)),
            }
        },
    }
}

/// The number of the member `key`, which must be there and be a whole
/// number that is not negative.
pub open spec fn member_u64(j: JsonView, key: Seq<char>) -> Result<u64, CommandErrorView> {
    match j.get(key) {
        None => Err(missing_field(key)),
        Some(v) => match v.as_u64() {
            Some(n) => Ok(n),
            None => Err(incorrect_data_type("unsigned integer"@, key)),
        },
    }
}

/// The items of a value that must be an array; `what` names the value in
/// the error.
pub open spec fn items_of(j: JsonView, what: Seq<char>) -> Result<Seq<JsonView>, CommandErrorView> {
    match j.as_array() {
        Some(items) => Ok(items),
        None => Err(incorrect_data_type("array"@, what)),
    }
}

/// `r` tells what `expected` tells, value for value.
pub open spec fn told<T, E: View>(r: Result<T, E>, expected: Result<T, E::V>) -> bool {
    match r {
        Ok(v) => expected == Ok::<T, E::V>(v),
        Err(e) => expected == Err::<T, E::V>(e@),
    }
}

/// `r` tells what `expected` tells, view for view.
pub open spec fn told_view<T: View, E: View>(
    r: Result<T, E>,
    expected: Result<T::V, E::V>,
) -> bool {
    match r {
        Ok(v) => expected == Ok::<T::V, E::V>(v@),
        Err(e) => expected == Err::<T::V, E::V>(e@),
    }
}

/// `r` tells what `expected` tells, where the value is an optional text.
pub open spec fn told_opt_text<E: View>(
    r: Result<Option<String>, E>,
    expected: Result<Option<Seq<char>>, E::V>,
) -> bool {
    match r {
        Ok(v) => expected == Ok::<Option<Seq<char>>, E::V>(opt_text(v)),
        Err(e) => expected == Err::<Option<Seq<char>>, E::V>(e@),
    }
}

impl JsonValue {
    /// An object with the given members.
    pub fn object(members: Vec<(String, JsonValue)>) -> (r: Self)
        ensures
            r@ == JsonView::Object(Self::member_views(members@)),
    {
        let r = JsonValue::Object(members);
        proof {
            r.lemma_view();
        }
        r
    }

    /// An array with the given items.
    pub fn array(items: Vec<JsonValue>) -> (r: Self)
        ensures
            r@ == JsonView::Array(Self::item_views(items@)),
    {
        let r = JsonValue::Array(items);
        proof {
            r.lemma_view();
        }
        r
    }

    /// Adds a member to the members of an object under construction.
    pub fn put(members: &mut Vec<(String, JsonValue)>, key: &str, value: JsonValue)
        ensures
            Self::member_views(final(members)@) == Self::member_views(old(members)@).push(
                (key@, value@),
            ),
    {
        members.push((String::from_str(key), value));
        assert(Self::member_views(members@) =~= Self::member_views(old(members)@).push(
            (key@, value@),
        ));
    }

    /// Adds a string member.
    pub fn put_text(members: &mut Vec<(String, JsonValue)>, key: &str, value: &str)
        ensures
            Self::member_views(final(members)@) == Self::member_views(old(members)@).push(
                (key@, JsonView::Text(value@)),
            ),
    {
        Self::put(members, key, JsonValue::Text(String::from_str(value)));
    }

    /// Adds a string member, `null` where there is no text.
    pub fn put_opt_text(members: &mut Vec<(String, JsonValue)>, key: &str, value: &Option<String>)
        ensures
            Self::member_views(final(members)@) == Self::member_views(old(members)@).push(
                (key@, opt_text_json(opt_text(*value))),
            ),
    {
        match value {
            Some(text) => Self::put(members, key, JsonValue::Text(text.clone())),
            None => Self::put(members, key, JsonValue::Null),
        }
    }

    /// Adds a number member.
    pub fn put_int(members: &mut Vec<(String, JsonValue)>, key: &str, value: i64)
        ensures
            Self::member_views(final(members)@) == Self::member_views(old(members)@).push(
                (key@, int_json(value)),
            ),
    {
        Self::put(members, key, Self::from_i64(value));
    }

    /// Adds an item to the items of an array under construction.
    pub fn add(items: &mut Vec<JsonValue>, value: JsonValue)
        ensures
            Self::item_views(final(items)@) == Self::item_views(old(items)@).push(value@),
    {
        items.push(value);
        assert(Self::item_views(items@) =~= Self::item_views(old(items)@).push(value@));
    }

    /// The member `key`, which must be there.
    pub fn member(&self, key: &str) -> (r: Result<&JsonValue, CommandError>)
        ensures
            match r {
                Ok(v) => member(self@, key@) == Ok::<JsonView, CommandErrorView>(v@),
                Err(e) => member(self@, key@) == Err::<JsonView, CommandErrorView>(e@),
            },
    {
        match self.get(key) {
            Some(v) => Ok(v),
            None => Err(CommandError::response_missing_field(key)),
        }
    }

    /// The text of the member `key`, which must be there and be a string.
    pub fn member_text(&self, key: &str) -> (r: Result<String, CommandError>)
        ensures
            told_view(r, member_text(self@, key@)),
    {
        match self.get(key) {
            None => Err(CommandError::response_missing_field(key)),
            Some(v) => match v.as_str() {
                Some(t) => Ok(String::from_str(t)),
                None => Err(CommandError::response_incorrect_data_type("string", key)),
            },
        }
    }

    /// The text of the member `key`, `None` where the member is missing or
    /// `null`.
    pub fn member_opt_text(&self, key: &str) -> (r: Result<Option<String>, CommandError>)
        ensures
            told_opt_text(r, member_opt_text(self@, key@)),
    {
        match self.get(key) {
            None => Ok(None),
            Some(v) => if v.is_null() {
                Ok(None)
            } else {
                match v.as_str() {
                    Some(t) => Ok(Some(String::from_str(t))),
                    None => Err(CommandError::response_incorrect_data_type("string", key)),
                }
            },
        }
    }

    /// The number of the member `key`, which must be there and be a whole
    /// number that fits `i64`.
    pub fn member_i64(&self, key: &str) -> (r: Result<i64, CommandError>)
        ensures
            told(r, member_i64(self@, key@)),
    {
        match self.get(key) {
            None => Err(CommandError::response_missing_field(key)),
            Some(v) => match v.as_i64() {
                Some(n) => Ok(n),
                None => Err(CommandError::response_incorrect_data_type("integer", key)),
            },
        }
    }

    /// The number of the member `key`, `None` where the member is missing
    /// or `null`.
    pub fn member_opt_i64(&self, key: &str) -> (r: Result<Option<i64>, CommandError>)
        ensures
            told(r, member_opt_i64(self@, key@)),
    {
        match self.get(key) {
            None => Ok(None),
            Some(v) => if v.is_null() {
                Ok(None)
            } else {
                match v.as_i64() {
                    Some(n) => Ok(Some(n)),
                    None => Err(CommandError::response_incorrect_data_type("integer", key)),
                }
            },
        }
    }

    /// The number of the member `key`, which must be there and be a whole
    /// number that is not negative.
    pub fn member_u64(&self, key: &str) -> (r: Result<u64, CommandError>)
        ensures
            told(r, member_u64(self@, key@)),
    {
        match self.get(key) {
            None => Err(CommandError::response_missing_field(key)),
            Some(v) => match v.as_u64() {
                Some(n) => Ok(n),
                None => Err(CommandError::response_incorrect_data_type("unsigned integer", key)),
            },
        }
    }

    /// The items of a value that must be an array; `what` names the value
    /// in the error.
    pub fn items(&self, what: &str) -> (r: Result<&Vec<JsonValue>, CommandError>)
        ensures
            match r {
                Ok(items) => items_of(self@, what@) == Ok::<Seq<JsonView>, CommandErrorView>(
                    Self::item_views(items@),
                ),
                Err(e) => items_of(self@, what@) == Err::<Seq<JsonView>, CommandErrorView>(e@),
            },
    {
        match self.as_array() {
            Some(items) => Ok(items),
            None => Err(CommandError::response_incorrect_data_type("array", what)),
        }
    }
}

} // verus!
