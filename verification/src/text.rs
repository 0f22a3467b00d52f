//! Text helpers: decimal numbers and comma-separated lists over `Seq<char>`.

use vstd::prelude::*;
use vstd::string::*;
use crate::views::{lemma_views_push, views};

verus! {

/// `String::push` appends one character to the end of the string.
pub assume_specification[ String::push ](s: &mut String, c: char)
    ensures
        final(s)@ == old(s)@.push(c),
;

/// Two string slices are equal exactly when they hold the same characters.
pub assume_specification[ <str as PartialEq>::eq ](a: &str, b: &str) -> (r: bool)
    ensures
        r == (a@ == b@),
;

/// The character that stands for the decimal digit `d`.
pub open spec fn digit_char(d: int) -> char {
    if d == 0 {
        '0'
    } else if d == 1 {
        '1'
    } else if d == 2 {
        '2'
    } else if d == 3 {
        '3'
    } else if d == 4 {
        '4'
    } else if d == 5 {
        '5'
    } else if d == 6 {
        '6'
    } else if d == 7 {
        '7'
    } else if d == 8 {
        '8'
    } else {
        '9'
    }
}

/// The value of a decimal digit, or `None` for any other character.
pub open spec fn digit_value(c: char) -> Option<int> {
    if c == '0' {
        Some(0)
    } else if c == '1' {
        Some(1)
    } else if c == '2' {
        Some(2)
    } else if c == '3' {
        Some(3)
    } else if c == '4' {
        Some(4)
    } else if c == '5' {
        Some(5)
    } else if c == '6' {
        Some(6)
    } else if c == '7' {
        Some(7)
    } else if c == '8' {
        Some(8)
    } else if c == '9' {
        Some(9)
    } else {
        None
    }
}

/// Decimal form of a natural number, without leading zeros.
pub open spec fn nat_text(n: nat) -> Seq<char>
    decreases n,
{
    if n < 10 {
        seq![digit_char(n as int)]
    } else {
        nat_text(n / 10).push(digit_char((n % 10) as int))
    }
}

/// Decimal form of an integer: a minus sign in front of negative numbers.
pub open spec fn int_text(i: int) -> Seq<char> {
    if i < 0 {
        seq!['-'] + nat_text((-i) as nat)
    } else {
        nat_text(i as nat)
    }
}

/// The number that a non-empty run of decimal digits stands for.
pub open spec fn text_nat(s: Seq<char>) -> Option<nat>
    decreases s.len(),
{
    if s.len() == 0 {
        None
    } else {
        match digit_value(s.last()) {
            None => None,
            Some(d) => if s.len() == 1 {
                Some(d as nat)
            } else {
                match text_nat(s.drop_last()) {
                    None => None,
                    Some(p) => Some((p * 10 + d) as nat),
                }
            },
        }
    }
}

/// The integer that a decimal text stands for: digits with at most one sign
/// in front.
pub open spec fn text_int(s: Seq<char>) -> Option<int> {
    if s.len() > 0 && s[0] == '-' {
        match text_nat(s.skip(1)) {
            Some(n) => Some(-(n as int)),
            None => None,
        }
    } else if s.len() > 0 && s[0] == '+' {
        match text_nat(s.skip(1)) {
            Some(n) => Some(n as int),
            None => None,
        }
    } else {
        match text_nat(s) {
            Some(n) => Some(n as int),
            None => None,
        }
    }
}

/// What parsing a text as `u64` gives: digits with an optional plus sign,
/// and a value that fits.
pub open spec fn text_u64(s: Seq<char>) -> Option<u64> {
    if s.len() > 0 && s[0] == '-' {
        None
    } else {
        match text_int(s) {
            Some(i) => if i <= u64::MAX {
                Some(i as u64)
            } else {
                None
            },
            None => None,
        }
    }
}

/// What parsing a text as `i64` gives: digits with an optional sign, and a
/// value that fits.
pub open spec fn text_i64(s: Seq<char>) -> Option<i64> {
    match text_int(s) {
        Some(i) => if i64::MIN <= i <= i64::MAX {
            Some(i as i64)
        } else {
            None
        },
        None => None,
    }
}

/// The view of an optional string.
pub open spec fn opt_text(s: Option<String>) -> Option<Seq<char>> {
    match s {
        Some(t) => Some(t@),
        None => None,
    }
}

fn digit_of(d: u64) -> (c: char)
    requires
        d < 10,
    ensures
        c == digit_char(d as int),
{
    if d == 0 {
        '0'
    } else if d == 1 {
        '1'
    } else if d == 2 {
        '2'
    } else if d == 3 {
        '3'
    } else if d == 4 {
        '4'
    } else if d == 5 {
        '5'
    } else if d == 6 {
        '6'
    } else if d == 7 {
        '7'
    } else if d == 8 {
        '8'
    } else {
        '9'
    }
}

fn value_of(c: char) -> (d: Option<u64>)
    ensures
        match d {
            Some(v) => digit_value(c) == Some(v as int) && v < 10,
            None => digit_value(c) is None,
        },
{
    if c == '0' {
        Some(0)
    } else if c == '1' {
        Some(1)
    } else if c == '2' {
        Some(2)
    } else if c == '3' {
        Some(3)
    } else if c == '4' {
        Some(4)
    } else if c == '5' {
        Some(5)
    } else if c == '6' {
        Some(6)
    } else if c == '7' {
        Some(7)
    } else if c == '8' {
        Some(8)
    } else if c == '9' {
        Some(9)
    } else {
        None
    }
}

/// Appends the decimal form of `n` to `out`.
pub fn push_u64(out: &mut String, n: u64)
    ensures
        final(out)@ == old(out)@ + nat_text(n as nat),
    decreases n,
{
    if n >= 10 {
        push_u64(out, n / 10);
    }
    out.push(digit_of(n % 10));
    proof {
        if n >= 10 {
            assert(old(out)@ + nat_text(n as nat) =~= (old(out)@ + nat_text((n / 10) as nat)).push(
                digit_char((n % 10) as int),
            ));
        } else {
            assert(old(out)@ + nat_text(n as nat) =~= old(out)@.push(digit_char(n as int)));
        }
    }
}

/// Appends the decimal form of `n` to `out`.
pub fn push_i64(out: &mut String, n: i64)
    ensures
        final(out)@ == old(out)@ + int_text(n as int),
{
    if n < 0 {
        out.push('-');
        let magnitude: u64 = ((-(n + 1)) as u64) + 1;
        push_u64(out, magnitude);
        assert(old(out)@ + int_text(n as int) =~= old(out)@.push('-') + nat_text(magnitude as nat));
    } else {
        push_u64(out, n as u64);
    }
}

/// The decimal form of `n`.
pub fn u64_to_string(n: u64) -> (s: String)
    ensures
        s@ == nat_text(n as nat),
{
    let mut s = String::new();
    push_u64(&mut s, n);
    assert(Seq::<char>::empty() + nat_text(n as nat) =~= nat_text(n as nat));
    s
}

/// The decimal form of `n`.
pub fn i64_to_string(n: i64) -> (s: String)
    ensures
        s@ == int_text(n as int),
{
    let mut s = String::new();
    push_i64(&mut s, n);
    assert(Seq::<char>::empty() + int_text(n as int) =~= int_text(n as int));
    s
}

/// The characters of a string slice, one by one.
pub fn to_chars(s: &str) -> (v: Vec<char>)
    ensures
        v@ == s@,
{
    let mut v: Vec<char> = Vec::new();
    for c in it: s.chars()
        invariant
            v@ == it.seq().take(it.index() as int),
            it.seq() == s@,
    {
        v.push(c);
    }
    v
}

/// The string made of the characters `v[from..to]`.
pub fn from_chars(v: &Vec<char>, from: usize, to: usize) -> (s: String)
    requires
        from <= to <= v.len(),
    ensures
        s@ == v@.subrange(from as int, to as int),
{
    let mut s = String::new();
    let mut i: usize = from;
    while i < to
        invariant
            from <= i <= to <= v.len(),
            s@ == v@.subrange(from as int, i as int),
        decreases to - i,
    {
        s.push(v[i]);
        i += 1;
        assert(v@.subrange(from as int, i as int) =~= v@.subrange(from as int, i - 1).push(
            v@[i - 1],
        ));
    }
    s
}

/// A prefix of a run of digits is a run of digits, and stands for no more
/// than the whole.
pub proof fn lemma_text_nat_prefix(s: Seq<char>, k: int)
    requires
        1 <= k <= s.len(),
        text_nat(s) is Some,
    ensures
        text_nat(s.take(k)) is Some,
        text_nat(s.take(k))->0 <= text_nat(s)->0,
    decreases s.len(),
{
    if k == s.len() {
        assert(s.take(k) =~= s);
    } else {
        assert(s.drop_last().take(k) =~= s.take(k));
        lemma_text_nat_prefix(s.drop_last(), k);
    }
}

/// Where a prefix is no run of digits, the whole is none either.
pub proof fn lemma_text_nat_prefix_none(s: Seq<char>, k: int)
    requires
        1 <= k <= s.len(),
        text_nat(s.take(k)) is None,
    ensures
        text_nat(s) is None,
{
    if text_nat(s) is Some {
        lemma_text_nat_prefix(s, k);
    }
}

/// Reads the digits `v[from..]` as a number, `None` where there is none, a
/// character is no digit, or the value does not fit.
fn parse_digits(v: &Vec<char>, from: usize) -> (r: Option<u64>)
    requires
        from <= v.len(),
    ensures
        match r {
            Some(n) => text_nat(v@.skip(from as int)) == Some(n as nat),
            None => text_nat(v@.skip(from as int)) is None || text_nat(v@.skip(from as int))->0
                > u64::MAX,
        },
{
    let ghost digits = v@.skip(from as int);
    if from == v.len() {
        return None;
    }
    let mut acc: u64 = 0;
    let mut i: usize = from;
    while i < v.len()
        invariant
            from <= i <= v.len(),
            from < v.len(),
            digits == v@.skip(from as int),
            i > from ==> text_nat(digits.take(i - from)) == Some(acc as nat),
            i == from ==> acc == 0,
        decreases v.len() - i,
    {
        let ghost prefix = digits.take(i + 1 - from);
        proof {
            assert(prefix.last() == v@[i as int]);
            assert(prefix.drop_last() =~= digits.take(i - from));
        }
        match value_of(v[i]) {
            None => {
                proof {
                    lemma_text_nat_prefix_none(digits, i + 1 - from);
                }
                return None;
            },
            Some(d) => {
                if acc > (u64::MAX - d) / 10 {
                    proof {
                        assert(text_nat(prefix) is Some ==> text_nat(prefix)->0 == acc * 10 + d);
                        if text_nat(digits) is Some {
                            lemma_text_nat_prefix(digits, i + 1 - from);
                        }
                    }
                    return None;
                }
                acc = acc * 10 + d;
            },
        }
        i += 1;
    }
    proof {
        assert(digits.take(i - from) =~= digits);
    }
    Some(acc)
}

/// Parses a decimal text as `u64`.
pub fn parse_u64(s: &str) -> (r: Option<u64>)
    ensures
        r == text_u64(s@),
{
    let v = to_chars(s);
    if v.len() > 0 && v[0] == '-' {
        return None;
    }
    let from: usize = if v.len() > 0 && v[0] == '+' {
        1
    } else {
        0
    };
    proof {
        assert(v@.skip(0) =~= v@);
    }
    parse_digits(&v, from)
}

/// Parses a decimal text as `i64`.
pub fn parse_i64(s: &str) -> (r: Option<i64>)
    ensures
        r == text_i64(s@),
{
    let v = to_chars(s);
    proof {
        assert(v@.skip(0) =~= v@);
    }
    if v.len() > 0 && v[0] == '-' {
        match parse_digits(&v, 1) {
            Some(n) => {
                if n <= 0x7fff_ffff_ffff_ffff {
                    Some(-(n as i64))
                } else if n == 0x8000_0000_0000_0000 {
                    Some(i64::MIN)
                } else {
                    None
                }
            },
            None => None,
        }
    } else {
        let from: usize = if v.len() > 0 && v[0] == '+' {
            1
        } else {
            0
        };
        match parse_digits(&v, from) {
            Some(n) => {
                if n <= 0x7fff_ffff_ffff_ffff {
                    Some(n as i64)
                } else {
                    None
                }
            },
            None => None,
        }
    }
}

/// `a` followed by `b`.
pub fn concat2(a: &str, b: &str) -> (s: String)
    ensures
        s@ == a@ + b@,
{
    let mut s = String::from_str(a);
    s.append(b);
    s
}

/// `a` followed by `b` and `c`.
pub fn concat3(a: &str, b: &str, c: &str) -> (s: String)
    ensures
        s@ == a@ + b@ + c@,
{
    let mut s = String::from_str(a);
    s.append(b);
    s.append(c);
    s
}

/// A borrowed view of an optional string.
pub fn opt_str(s: &Option<String>) -> (r: Option<&str>)
    ensures
        opt_str_text(r) == opt_text(*s),
{
    match s {
        Some(t) => Some(t.as_str()),
        None => None,
    }
}

/// The view of an optional string slice.
pub open spec fn opt_str_text(s: Option<&str>) -> Option<Seq<char>> {
    match s {
        Some(t) => Some(t@),
        None => None,
    }
}

/// The first place at or after `from` where `c` stands in `s`, or the
/// length of `s` where it stands nowhere.
pub open spec fn first_index(s: Seq<char>, c: char, from: int) -> int
    decreases s.len() - from,
{
    if from >= s.len() {
        s.len() as int
    } else if s[from] == c {
        from
    } else {
        first_index(s, c, from + 1)
    }
}

/// The last place where `c` stands in `s`, or `-1` where it stands nowhere.
pub open spec fn last_index(s: Seq<char>, c: char) -> int
    decreases s.len(),
{
    if s.len() == 0 {
        -1
    } else if s.last() == c {
        s.len() - 1
    } else {
        last_index(s.drop_last(), c)
    }
}

/// Where the first `c` at or after `from` stands, told by what stands
/// before it.
pub proof fn lemma_first_index(s: Seq<char>, c: char, from: int, at: int)
    requires
        0 <= from <= at <= s.len(),
        forall|k: int| from <= k < at ==> s[k] != c,
        at < s.len() ==> s[at] == c,
    ensures
        first_index(s, c, from) == at,
    decreases at - from,
{
    if from < at {
        lemma_first_index(s, c, from + 1, at);
    }
}

/// Where the last `c` stands, told by what stands behind it.
pub proof fn lemma_last_index(s: Seq<char>, c: char, at: int)
    requires
        -1 <= at < s.len(),
        forall|k: int| at < k < s.len() ==> s[k] != c,
        at >= 0 ==> s[at] == c,
    ensures
        last_index(s, c) == at,
    decreases s.len(),
{
    if s.len() > 0 && at < s.len() - 1 {
        let front = s.drop_last();
        assert forall|k: int| at < k < front.len() implies front[k] != c by {
            assert(front[k] == s[k]);
        }
        if at >= 0 {
            assert(front[at] == s[at]);
        }
        lemma_last_index(front, c, at);
    }
}

/// `c` stands nowhere in `s`.
pub open spec fn free_of(s: Seq<char>, c: char) -> bool {
    forall|i: int| 0 <= i < s.len() ==> s[i] != c
}

/// A text cut at each `sep`. There is always at least one piece.
pub open spec fn split_on(s: Seq<char>, sep: char) -> Seq<Seq<char>>
    decreases s.len(),
{
    let i = last_index(s, sep);
    if i < 0 || i >= s.len() {
        seq![s]
    } else {
        split_on(s.take(i), sep).push(s.skip(i + 1))
    }
}

/// The pieces of a prefix that ends before a separator or at the end,
/// told by where its last piece begins.
pub proof fn lemma_split_step(s: Seq<char>, sep: char, begin: int, end: int)
    requires
        0 <= begin <= end <= s.len(),
        forall|k: int| begin <= k < end ==> s[k] != sep,
        begin > 0 ==> s[begin - 1] == sep,
    ensures
        split_on(s.take(end), sep) == if begin == 0 {
            seq![s.take(end)]
        } else {
            split_on(s.take(begin - 1), sep).push(s.subrange(begin, end))
        },
{
    let prefix = s.take(end);
    assert forall|k: int| begin - 1 < k < prefix.len() implies prefix[k] != sep by {
        assert(prefix[k] == s[k]);
    }
    lemma_last_index(prefix, sep, begin - 1);
    if begin > 0 {
        assert(prefix.take(begin - 1) =~= s.take(begin - 1));
        assert(prefix.skip(begin) =~= s.subrange(begin, end));
    }
}

/// The first place in `v[from..to]` where `c` stands, or `to`.
pub fn find_char(v: &Vec<char>, c: char, from: usize, to: usize) -> (at: usize)
    requires
        from <= to <= v.len(),
    ensures
        from <= at <= to,
        forall|k: int| from <= k < at ==> v@[k] != c,
        at < to ==> v@[at as int] == c,
{
    let mut at: usize = from;
    while at < to && v[at] != c
        invariant
            from <= at <= to <= v.len(),
            forall|k: int| from <= k < at ==> v@[k] != c,
        decreases to - at,
    {
        at += 1;
    }
    at
}

/// Cuts a text at each `sep`.
pub fn split(text: &str, sep: char) -> (pieces: Vec<String>)
    ensures
        views(pieces@) == split_on(text@, sep),
        pieces.len() >= 1,
{
    let v = to_chars(text);
    let mut pieces: Vec<String> = Vec::new();
    let mut start: usize = 0;
    loop
        invariant_except_break
            start <= v.len(),
            v@ == text@,
            start > 0 ==> v@[start - 1] == sep,
            start > 0 ==> views(pieces@) == split_on(v@.take(start - 1), sep),
            start == 0 ==> pieces@.len() == 0,
        ensures
            views(pieces@) == split_on(text@, sep),
            pieces.len() >= 1,
        decreases v.len() - start,
    {
        let end = find_char(&v, sep, start, v.len());
        let piece = from_chars(&v, start, end);
        proof {
            lemma_split_step(v@, sep, start as int, end as int);
            lemma_views_push(pieces@, piece);
            if start == 0 {
                assert(views(pieces@) =~= Seq::<Seq<char>>::empty());
                assert(v@.take(end as int) =~= v@.subrange(0, end as int));
                assert(Seq::<Seq<char>>::empty().push(piece@) =~= seq![piece@]);
            }
        }
        pieces.push(piece);
        if end == v.len() {
            proof {
                assert(v@.take(end as int) =~= v@);
            }
            break ;
        }
        start = end + 1;
    }
    pieces
}

/// A value that can be read from a text.
pub trait FromText: Sized {
    /// The value that a text stands for, `None` for a text that stands for
    /// none.
    spec fn read(s: Seq<char>) -> Option<Self>;

    /// Reads a value from a text.
    fn parse_text(s: &str) -> (r: Option<Self>)
        ensures
            r == Self::read(s@),
    ;
}

/// The values that the pieces of a list stand for, `None` where a piece
/// stands for none.
pub open spec fn read_each<T: FromText>(pieces: Seq<Seq<char>>) -> Option<Seq<T>>
    decreases pieces.len(),
{
    if pieces.len() == 0 {
        Some(Seq::empty())
    } else {
        match read_each::<T>(pieces.drop_last()) {
            None => None,
            Some(front) => match T::read(pieces.last()) {
                None => None,
                Some(v) => Some(front.push(v)),
            },
        }
    }
}

/// The values that a list with commas between its elements stands for.
pub open spec fn read_list<T: FromText>(s: Seq<char>) -> Option<Seq<T>> {
    read_each::<T>(split_on(s, ','))
}

/// A failure in a prefix of a list is the failure of the whole list.
pub proof fn lemma_read_each_prefix<T: FromText>(pieces: Seq<Seq<char>>, k: int)
    requires
        0 <= k <= pieces.len(),
        read_each::<T>(pieces.take(k)) is None,
    ensures
        read_each::<T>(pieces) is None,
    decreases pieces.len(),
{
    if k == pieces.len() {
        assert(pieces.take(k) =~= pieces);
    } else {
        assert(pieces.drop_last().take(k) =~= pieces.take(k));
        lemma_read_each_prefix::<T>(pieces.drop_last(), k);
    }
}

/// A list that can be read has as many elements as pieces.
pub proof fn lemma_read_each_len<T: FromText>(pieces: Seq<Seq<char>>)
    ensures
        read_each::<T>(pieces) matches Some(values) ==> values.len() == pieces.len(),
    decreases pieces.len(),
{
    if pieces.len() > 0 {
        lemma_read_each_len::<T>(pieces.drop_last());
    }
}

/// A text cut at a separator gives at least one piece.
pub proof fn lemma_split_on_len(s: Seq<char>, sep: char)
    ensures
        split_on(s, sep).len() >= 1,
    decreases s.len(),
{
    let i = last_index(s, sep);
    if 0 <= i < s.len() {
        lemma_split_on_len(s.take(i), sep);
    }
}

/// A list that can be read has at least one element.
pub proof fn lemma_read_list_len<T: FromText>(s: Seq<char>)
    ensures
        read_list::<T>(s) matches Some(values) ==> values.len() >= 1,
{
    lemma_split_on_len(s, ',');
    lemma_read_each_len::<T>(split_on(s, ','));
}

/// Reads a list with commas between its elements.
pub fn parse_list<T: FromText>(s: &str) -> (r: Option<Vec<T>>)
    ensures
        match r {
            Some(v) => read_list::<T>(s@) == Some(v@) && v.len() >= 1,
            None => read_list::<T>(s@) is None,
        },
{
    proof {
        lemma_read_list_len::<T>(s@);
    }
    let pieces = split(s, ',');
    let ghost all = split_on(s@, ',');
    let mut out: Vec<T> = Vec::new();
    let mut i: usize = 0;
    assert(all.take(0) =~= Seq::empty());
    while i < pieces.len()
        invariant
            i <= pieces.len(),
            views(pieces@) == all,
            all == split_on(s@, ','),
            read_each::<T>(all.take(i as int)) == Some(out@),
        decreases pieces.len() - i,
    {
        proof {
            assert(all.take(i + 1).drop_last() =~= all.take(i as int));
            assert(all.take(i + 1).last() == pieces@[i as int]@);
        }
        match T::parse_text(pieces[i].as_str()) {
            Some(v) => {
                out.push(v);
            },
            None => {
                proof {
                    lemma_read_each_prefix::<T>(all, i + 1);
                }
                return None;
            },
        }
        i += 1;
    }
    assert(all.take(i as int) =~= all);
    Some(out)
}

impl FromText for usize {
    open spec fn read(s: Seq<char>) -> Option<usize> {
        match text_u64(s) {
            Some(n) => if n <= usize::MAX {
                Some(n as usize)
            } else {
                None
            },
            None => None,
        }
    }

    fn parse_text(s: &str) -> (r: Option<usize>) {
        match parse_u64(s) {
            Some(n) => if n <= usize::MAX as u64 {
                Some(n as usize)
            } else {
                None
            },
            None => None,
        }
    }
}

/// The decimal form of a number holds digits only.
pub proof fn lemma_nat_text_digits(n: nat)
    ensures
        nat_text(n).len() >= 1,
        forall|i: int| 0 <= i < nat_text(n).len() ==> digit_value(#[trigger] nat_text(n)[i]) is Some,
    decreases n,
{
    if n >= 10 {
        lemma_nat_text_digits(n / 10);
    }
}

/// The decimal form of a number, read back, is the number.
pub proof fn lemma_nat_text_round_trip(n: nat)
    ensures
        text_nat(nat_text(n)) == Some(n),
    decreases n,
{
    if n >= 10 {
        lemma_nat_text_round_trip(n / 10);
        assert(nat_text(n).drop_last() =~= nat_text(n / 10));
        lemma_nat_text_digits(n / 10);
    }
}

/// The decimal form of an integer, read back, is the integer.
pub proof fn lemma_int_text_round_trip(i: int)
    ensures
        text_int(int_text(i)) == Some(i),
{
    if i < 0 {
        lemma_nat_text_round_trip((-i) as nat);
        assert(int_text(i).skip(1) =~= nat_text((-i) as nat));
    } else {
        lemma_nat_text_round_trip(i as nat);
        lemma_nat_text_digits(i as nat);
    }
}

/// The decimal form of an integer holds none of the characters that
/// separate the parts of a command.
pub proof fn lemma_int_text_plain(i: int)
    ensures
        free_of(int_text(i), '&'),
        free_of(int_text(i), '='),
        free_of(int_text(i), '?'),
        free_of(int_text(i), '/'),
        free_of(int_text(i), ','),
{
    if i < 0 {
        lemma_nat_text_digits((-i) as nat);
        assert forall|k: int| 0 <= k < int_text(i).len() implies int_text(i)[k] != '&' && int_text(
            i,
        )[k] != '=' && int_text(i)[k] != '?' && int_text(i)[k] != '/' && int_text(i)[k] != ',' by {
            if k > 0 {
                assert(int_text(i)[k] == nat_text((-i) as nat)[k - 1]);
            }
        }
    } else {
        lemma_nat_text_digits(i as nat);
    }
}

} // verus!
