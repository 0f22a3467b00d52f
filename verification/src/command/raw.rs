//! Raw commands: a group, a name and a set of parameters, and their text
//! form `heos://<group>/<name>?<key>=<value>&...`.

use vstd::prelude::*;
use vstd::string::*;
use crate::text::{
    find_char,
    first_index,
    free_of,
    from_chars,
    lemma_first_index,
    lemma_last_index,
    split,
    split_on,
    to_chars,
};
use crate::views::{lemma_views_push, lemma_views_take_next, views};

verus! {

/// A list of parameters as plain values: keys with their values, in the
/// order in which the keys were first set.
pub type Params = Seq<(Seq<char>, Seq<char>)>;

/// Where `key` stands in `params`: the first index that holds it.
pub open spec fn key_index(params: Params, key: Seq<char>) -> Option<int>
    decreases params.len(),
{
    if params.len() == 0 {
        None
    } else {
        match key_index(params.drop_last(), key) {
            Some(i) => Some(i),
            None => if params.last().0 == key {
                Some(params.len() - 1)
            } else {
                None
            },
        }
    }
}

/// The value that `params` holds for `key`.
pub open spec fn lookup(params: Params, key: Seq<char>) -> Option<Seq<char>> {
    match key_index(params, key) {
        Some(i) => Some(params[i].1),
        None => None,
    }
}

/// `params` with `key` set to `value`: in place where the key is there
/// already, at the end where it is new.
pub open spec fn with_param(params: Params, key: Seq<char>, value: Seq<char>) -> Params {
    match key_index(params, key) {
        Some(i) => params.update(i, (key, value)),
        None => params.push((key, value)),
    }
}

/// The parameters that come of setting `pairs` one after the other.
pub open spec fn collect_params(pairs: Params) -> Params
    decreases pairs.len(),
{
    if pairs.len() == 0 {
        Seq::empty()
    } else {
        with_param(collect_params(pairs.drop_last()), pairs.last().0, pairs.last().1)
    }
}

/// `base` with the parameters of `extra` set one after the other.
pub open spec fn extended(base: Params, extra: Params) -> Params
    decreases extra.len(),
{
    if extra.len() == 0 {
        base
    } else {
        with_param(extended(base, extra.drop_last()), extra.last().0, extra.last().1)
    }
}

/// No key stands twice.
pub open spec fn distinct_keys(params: Params) -> bool {
    forall|i: int, j: int| 0 <= i < j < params.len() ==> params[i].0 != params[j].0
}

/// What `key_index` finds: the first place of the key, or that there is none.
pub proof fn lemma_key_index(params: Params, key: Seq<char>)
    ensures
        match key_index(params, key) {
            Some(i) => 0 <= i < params.len() && params[i].0 == key && forall|j: int|
                0 <= j < i ==> params[j].0 != key,
            None => forall|j: int| 0 <= j < params.len() ==> params[j].0 != key,
        },
    decreases params.len(),
{
    if params.len() > 0 {
        let front = params.drop_last();
        lemma_key_index(front, key);
        assert forall|j: int| 0 <= j < front.len() implies front[j] == params[j] by {}
        match key_index(front, key) {
            Some(i) => {
                assert(front[i] == params[i]);
                assert forall|j: int| 0 <= j < i implies params[j].0 != key by {
                    assert(front[j] == params[j]);
                }
            },
            None => {
                assert forall|j: int| 0 <= j < front.len() implies params[j].0 != key by {
                    assert(front[j] == params[j]);
                }
            },
        }
    }
}

/// Setting a parameter keeps the keys distinct, and the key then holds the
/// value.
pub proof fn lemma_with_param(params: Params, key: Seq<char>, value: Seq<char>)
    requires
        distinct_keys(params),
    ensures
        distinct_keys(with_param(params, key, value)),
        lookup(with_param(params, key, value), key) == Some(value),
        forall|other: Seq<char>|
            other != key ==> lookup(with_param(params, key, value), other) == lookup(
                params,
                other,
            ),
{
    lemma_key_index(params, key);
    let after = with_param(params, key, value);
    lemma_key_index(after, key);
    match key_index(params, key) {
        Some(i) => {
            assert(after[i] == (key, value));
            assert forall|j: int| 0 <= j < after.len() && j != i implies after[j] == params[j] by {}
            let found = key_index(after, key)->0;
            if found != i {
                assert(after[found] == params[found]);
            }
        },
        None => {
            assert(after.last() == (key, value));
            assert forall|j: int| 0 <= j < params.len() implies after[j] == params[j] by {}
            let found = key_index(after, key)->0;
            if found != params.len() {
                assert(after[found] == params[found]);
            }
        },
    }
    assert forall|other: Seq<char>| other != key implies lookup(after, other) == lookup(
        params,
        other,
    ) by {
        lemma_key_index(params, other);
        lemma_key_index(after, other);
        match key_index(params, other) {
            Some(a) => {
                assert(after[a] == params[a]);
                match key_index(after, other) {
                    Some(b) => {
                        if b < a {
                            assert(after[b].0 == other);
                            assert(after[b] == params[b]);
                        }
                    },
                    None => {},
                }
            },
            None => {
                match key_index(after, other) {
                    Some(b) => {
                        assert(after[b].0 == other);
                        if b < params.len() {
                            assert(after[b] == params[b] || after[b] == (key, value));
                        }
                    },
                    None => {},
                }
            },
        }
    }
    assert forall|i: int, j: int| 0 <= i < j < after.len() implies after[i].0 != after[j].0 by {
        match key_index(params, key) {
            Some(k) => {
                if i != k {
                    assert(after[i] == params[i]);
                }
                if j != k {
                    assert(after[j] == params[j]);
                }
                if i == k {
                    assert(params[i].0 == key);
                }
                if j == k {
                    assert(params[j].0 == key);
                }
            },
            None => {
                assert(after[i] == params[i]);
                if j < params.len() {
                    assert(after[j] == params[j]);
                }
            },
        }
    }
}

/// Setting distinct keys one after the other gives the pairs as they stand.
pub proof fn lemma_collect_distinct(pairs: Params)
    requires
        distinct_keys(pairs),
    ensures
        collect_params(pairs) == pairs,
    decreases pairs.len(),
{
    if pairs.len() > 0 {
        let front = pairs.drop_last();
        lemma_collect_distinct(front);
        lemma_key_index(front, pairs.last().0);
        assert(front.push(pairs.last()) =~= pairs);
    }
}

/// Whatever is set one after the other, the keys come out distinct.
pub proof fn lemma_collect_is_distinct(pairs: Params)
    ensures
        distinct_keys(collect_params(pairs)),
    decreases pairs.len(),
{
    if pairs.len() > 0 {
        lemma_collect_is_distinct(pairs.drop_last());
        lemma_with_param(collect_params(pairs.drop_last()), pairs.last().0, pairs.last().1);
    }
}

/// A raw command as plain values.
pub ghost struct RawCommandView {
    pub group: Seq<char>,
    pub command: Seq<char>,
    pub params: Params,
}

/// A command without types: the group and the name of the command, and its
/// parameters. Each key stands once; setting it again replaces its value.
#[derive(Debug)]
pub struct RawCommand {
    group: String,
    command: String,
    params: Vec<(String, String)>,
}

impl View for RawCommand {
    type V = RawCommandView;

    closed spec fn view(&self) -> RawCommandView {
        RawCommandView {
            group: self.group@,
            command: self.command@,
            params: views(self.params@),
        }
    }
}

impl RawCommand {
    /// Each key stands once. Every command that this module hands out is
    /// well formed.
    pub closed spec fn wf(&self) -> bool {
        distinct_keys(views(self.params@))
    }

    /// The keys of a well-formed command are distinct.
    pub proof fn lemma_wf(&self)
        ensures
            self.wf() == distinct_keys(self@.params),
    {
    }

    /// A command without parameters.
    pub fn new(group: &str, command: &str) -> (r: Self)
        ensures
            r.wf(),
            r@ == (RawCommandView { group: group@, command: command@, params: Seq::empty() }),
    {
        let r = RawCommand {
            group: String::from_str(group),
            command: String::from_str(command),
            params: Vec::new(),
        };
        assert(views(r.params@) =~= Seq::empty());
        r
    }

    /// A command with the parameters of `params`, set one after the other.
    pub fn new_with_params(group: &str, command: &str, params: Vec<(String, String)>) -> (r: Self)
        ensures
            r.wf(),
            r@ == (RawCommandView {
                group: group@,
                command: command@,
                params: collect_params(views(params@)),
            }),
    {
        let mut r = Self::new(group, command);
        let mut i: usize = 0;
        while i < params.len()
            invariant
                i <= params.len(),
                r.wf(),
                r@ == (RawCommandView {
                    group: group@,
                    command: command@,
                    params: collect_params(views(params@.take(i as int))),
                }),
            decreases params.len() - i,
        {
            proof {
                lemma_views_take_next(params@, i as int);
                assert(views(params@.take(i + 1)).drop_last() =~= views(params@.take(i as int)));
            }
            r.param(params[i].0.as_str(), params[i].1.as_str());
            i += 1;
        }
        assert(params@.take(i as int) =~= params@);
        r
    }

    /// Where `key` stands among the parameters.
    fn find(&self, key: &str) -> (r: Option<usize>)
        ensures
            match r {
                Some(i) => key_index(self@.params, key@) == Some(i as int) && i
                    < self.params.len(),
                None => key_index(self@.params, key@) is None,
            },
    {
        let mut i: usize = 0;
        while i < self.params.len()
            invariant
                i <= self.params.len(),
                key_index(views(self.params@.take(i as int)), key@) is None,
            decreases self.params.len() - i,
        {
            proof {
                lemma_views_take_next(self.params@, i as int);
                assert(views(self.params@.take(i + 1)).drop_last() =~= views(
                    self.params@.take(i as int),
                ));
            }
            if self.params[i].0.as_str().eq(key) {
                proof {
                    lemma_key_index_prefix(views(self.params@), key@, i + 1);
                    assert(views(self.params@).take(i + 1) =~= views(self.params@.take(i + 1)));
                }
                return Some(i);
            }
            i += 1;
        }
        assert(self.params@.take(i as int) =~= self.params@);
        None
    }

    /// Sets the parameter `attribute` to `value`.
    pub fn param(&mut self, attribute: &str, value: &str)
        requires
            old(self).wf(),
        ensures
            final(self).wf(),
            final(self)@ == (RawCommandView {
                params: with_param(old(self)@.params, attribute@, value@),
                ..old(self)@
            }),
    {
        proof {
            lemma_with_param(self@.params, attribute@, value@);
        }
        let pair = (String::from_str(attribute), String::from_str(value));
        match self.find(attribute) {
            Some(i) => {
                let ghost before = self.params@;
                self.params[i] = pair;
                assert(views(self.params@) =~= views(before).update(
                    i as int,
                    (attribute@, value@),
                ));
            },
            None => {
                proof {
                    lemma_views_push(self.params@, pair);
                }
                self.params.push(pair);
            },
        }
    }

    /// The group of the command.
    pub fn group(&self) -> (r: &str)
        ensures
            r@ == self@.group,
    {
        self.group.as_str()
    }

    /// The name of the command within its group.
    pub fn name(&self) -> (r: &str)
        ensures
            r@ == self@.command,
    {
        self.command.as_str()
    }

    /// Group and name with a slash between them: what a reply carries to say
    /// which command it answers.
    pub fn command(&self) -> (r: String)
        ensures
            r@ == command_path(self@.group, self@.command),
    {
        let mut r = self.group.clone();
        r.push('/');
        r.append(self.command.as_str());
        r
    }

    /// The parameters, in the order in which their keys were first set.
    pub fn params(&self) -> (r: &Vec<(String, String)>)
        ensures
            views(r@) == self@.params,
    {
        &self.params
    }

    /// The value of the parameter `key`, if it is set.
    pub fn get(&self, key: &str) -> (r: Option<&String>)
        ensures
            match r {
                Some(value) => lookup(self@.params, key@) == Some(value@),
                None => lookup(self@.params, key@) is None,
            },
    {
        match self.find(key) {
            Some(i) => Some(&self.params[i].1),
            None => None,
        }
    }
}

/// Group and name of a command with a slash between them.
pub open spec fn command_path(group: Seq<char>, command: Seq<char>) -> Seq<char> {
    group.push('/') + command
}

/// A key found in a prefix is found at the same place in the whole.
pub proof fn lemma_key_index_prefix(params: Params, key: Seq<char>, k: int)
    requires
        0 <= k <= params.len(),
        key_index(params.take(k), key) is Some,
    ensures
        key_index(params, key) == key_index(params.take(k), key),
    decreases params.len(),
{
    if k == params.len() {
        assert(params.take(k) =~= params);
    } else {
        assert(params.drop_last().take(k) =~= params.take(k));
        lemma_key_index_prefix(params.drop_last(), key, k);
    }
}

/// One parameter in text form: key, equals sign, value.
pub open spec fn item_text(pair: (Seq<char>, Seq<char>)) -> Seq<char> {
    pair.0.push('=') + pair.1
}

/// Parameters in text form: the items with ampersands between them.
pub open spec fn params_text(params: Params) -> Seq<char>
    decreases params.len(),
{
    if params.len() == 0 {
        Seq::empty()
    } else if params.len() == 1 {
        item_text(params.last())
    } else {
        params_text(params.drop_last()).push('&') + item_text(params.last())
    }
}

/// The text form of a command: `heos://`, group, slash and name, and, where
/// there are parameters, a question mark and the parameters.
pub open spec fn command_text(c: RawCommandView) -> Seq<char> {
    "heos://"@ + command_path(c.group, c.command) + if c.params.len() == 0 {
        Seq::<char>::empty()
    } else {
        seq!['?'] + params_text(c.params)
    }
}

/// A piece cut at its first equals sign; a piece without one is a key with
/// an empty value.
pub open spec fn split_pair(item: Seq<char>) -> (Seq<char>, Seq<char>) {
    let i = first_index(item, '=', 0);
    if i >= item.len() {
        (item, Seq::empty())
    } else {
        (item.take(i), item.skip(i + 1))
    }
}

/// The pairs that a parameter text holds, in order. The empty text holds
/// none.
pub open spec fn text_pairs(s: Seq<char>) -> Params {
    if s.len() == 0 {
        Seq::empty()
    } else {
        split_on(s, '&').map_values(|item: Seq<char>| split_pair(item))
    }
}

/// The command that a text stands for, `None` where the text does not
/// begin with `heos://` or names no group.
pub open spec fn text_command(t: Seq<char>) -> Option<RawCommandView> {
    let prefix = "heos://"@;
    if t.len() < prefix.len() || t.take(prefix.len() as int) != prefix {
        None
    } else {
        let rest = t.skip(prefix.len() as int);
        let slash = first_index(rest, '/', 0);
        if slash >= rest.len() {
            None
        } else {
            let tail = rest.skip(slash + 1);
            let mark = first_index(tail, '?', 0);
            Some(
                RawCommandView {
                    group: rest.take(slash),
                    command: tail.take(mark),
                    params: if mark >= tail.len() {
                        Seq::empty()
                    } else {
                        collect_params(text_pairs(tail.skip(mark + 1)))
                    },
                },
            )
        }
    }
}

/// A command whose text form can be read back: no slash in the group, no
/// question mark in the name, no ampersand or equals sign in a key, no
/// ampersand in a value, and no key twice.
pub open spec fn plain_command(c: RawCommandView) -> bool {
    &&& free_of(c.group, '/')
    &&& free_of(c.command, '?')
    &&& distinct_keys(c.params)
    &&& forall|i: int|
        0 <= i < c.params.len() ==> free_of(#[trigger] c.params[i].0, '&') && free_of(
            c.params[i].0,
            '=',
        ) && free_of(c.params[i].1, '&')
}

/// The text of one parameter holds no ampersand, and cut at its first
/// equals sign it gives the parameter back.
pub proof fn lemma_item_round_trip(pair: (Seq<char>, Seq<char>))
    requires
        free_of(pair.0, '='),
        free_of(pair.0, '&'),
        free_of(pair.1, '&'),
    ensures
        split_pair(item_text(pair)) == pair,
        free_of(item_text(pair), '&'),
        item_text(pair).len() > 0,
{
    let item = item_text(pair);
    let n = pair.0.len() as int;
    assert forall|k: int| 0 <= k < n implies item[k] != '=' by {
        assert(item[k] == pair.0[k]);
    }
    assert(item[n] == '=');
    lemma_first_index(item, '=', 0, n);
    assert(item.take(n) =~= pair.0);
    assert(item.skip(n + 1) =~= pair.1);
    assert forall|k: int| 0 <= k < item.len() implies item[k] != '&' by {
        if k < n {
            assert(item[k] == pair.0[k]);
        } else if k > n {
            assert(item[k] == pair.1[k - n - 1]);
        }
    }
}

/// The text of parameters, cut at its ampersands and each piece at its
/// first equals sign, gives the parameters back.
pub proof fn lemma_params_round_trip(params: Params)
    requires
        forall|i: int|
            0 <= i < params.len() ==> free_of(#[trigger] params[i].0, '&') && free_of(
                params[i].0,
                '=',
            ) && free_of(params[i].1, '&'),
    ensures
        text_pairs(params_text(params)) == params,
        params.len() > 0 ==> params_text(params).len() > 0,
    decreases params.len(),
{
    if params.len() == 0 {
        assert(text_pairs(params_text(params)) =~= params);
    } else {
        let last = params.last();
        let item = item_text(last);
        lemma_item_round_trip(last);
        if params.len() == 1 {
            lemma_last_index(item, '&', -1);
            assert(split_on(item, '&') =~= seq![item]);
            assert(text_pairs(item) =~= params);
        } else {
            let front = params.drop_last();
            assert forall|i: int| 0 <= i < front.len() implies free_of(
                #[trigger] front[i].0,
                '&',
            ) && free_of(front[i].0, '=') && free_of(front[i].1, '&') by {
                assert(front[i] == params[i]);
            }
            lemma_params_round_trip(front);
            let head = params_text(front);
            let whole = params_text(params);
            let n = head.len() as int;
            assert(whole[n] == '&');
            assert forall|k: int| n < k < whole.len() implies whole[k] != '&' by {
                assert(whole[k] == item[k - n - 1]);
            }
            lemma_last_index(whole, '&', n);
            assert(whole.take(n) =~= head);
            assert(whole.skip(n + 1) =~= item);
            assert(split_on(whole, '&') == split_on(head, '&').push(item));
            assert(text_pairs(whole) =~= text_pairs(head).push(split_pair(item)));
            assert(front.push(last) =~= params);
        }
    }
}

/// Round trip of the text form: a plain command, written as text and read
/// back, is the same command with the same parameters.
pub proof fn lemma_command_round_trip(c: RawCommandView)
    requires
        plain_command(c),
    ensures
        text_command(command_text(c)) == Some(c),
{
    reveal_strlit("heos://");
    let prefix = "heos://"@;
    let t = command_text(c);
    let params_part = if c.params.len() == 0 {
        Seq::<char>::empty()
    } else {
        seq!['?'] + params_text(c.params)
    };
    assert(t.take(prefix.len() as int) =~= prefix);
    let rest = t.skip(prefix.len() as int);
    assert(rest =~= command_path(c.group, c.command) + params_part);
    let g = c.group.len() as int;
    assert forall|k: int| 0 <= k < g implies rest[k] != '/' by {
        assert(rest[k] == c.group[k]);
    }
    assert(rest[g] == '/');
    lemma_first_index(rest, '/', 0, g);
    assert(rest.take(g) =~= c.group);
    let tail = rest.skip(g + 1);
    assert(tail =~= c.command + params_part);
    let m = c.command.len() as int;
    assert forall|k: int| 0 <= k < m implies tail[k] != '?' by {
        assert(tail[k] == c.command[k]);
    }
    if c.params.len() > 0 {
        assert(tail[m] == '?');
    }
    lemma_first_index(tail, '?', 0, m);
    assert(tail.take(m) =~= c.command);
    lemma_params_round_trip(c.params);
    lemma_collect_distinct(c.params);
    if c.params.len() > 0 {
        assert(tail.skip(m + 1) =~= params_text(c.params));
    } else {
        assert(c.params =~= Seq::empty());
    }
}

impl RawCommand {
    /// The parameters in text form, with ampersands between them.
    pub fn params_string(&self) -> (s: String)
        ensures
            s@ == params_text(self@.params),
    {
        let mut s = String::new();
        let mut i: usize = 0;
        while i < self.params.len()
            invariant
                i <= self.params.len(),
                s@ == params_text(views(self.params@.take(i as int))),
            decreases self.params.len() - i,
        {
            let ghost before = views(self.params@.take(i as int));
            let ghost so_far = s@;
            proof {
                lemma_views_take_next(self.params@, i as int);
                assert(views(self.params@.take(i + 1)).drop_last() =~= before);
            }
            if i > 0 {
                s.push('&');
            }
            s.append(self.params[i].0.as_str());
            s.push('=');
            s.append(self.params[i].1.as_str());
            proof {
                let pair = self.params@[i as int]@;
                if i > 0 {
                    assert(s@ =~= so_far.push('&') + item_text(pair));
                } else {
                    assert(s@ =~= item_text(pair));
                }
            }
            i += 1;
        }
        assert(self.params@.take(i as int) =~= self.params@);
        s
    }

    /// The text form of the command, as it goes out on the wire (without
    /// the line end).
    pub fn to_string(&self) -> (s: String)
        ensures
            s@ == command_text(self@),
    {
        let mut s = String::from_str("heos://");
        s.append(self.group.as_str());
        s.push('/');
        s.append(self.command.as_str());
        assert(s@ =~= "heos://"@ + command_path(self@.group, self@.command));
        if self.params.len() > 0 {
            let params = self.params_string();
            s.push('?');
            s.append(params.as_str());
            assert(s@ =~= command_text(self@));
        } else {
            assert(s@ =~= command_text(self@));
        }
        s
    }

    /// A copy of the command.
    pub fn duplicate(&self) -> (r: Self)
        requires
            self.wf(),
        ensures
            r.wf(),
            r@ == self@,
    {
        let mut params: Vec<(String, String)> = Vec::new();
        let mut i: usize = 0;
        while i < self.params.len()
            invariant
                i <= self.params.len(),
                views(params@) == views(self.params@.take(i as int)),
            decreases self.params.len() - i,
        {
            let pair = (self.params[i].0.clone(), self.params[i].1.clone());
            proof {
                lemma_views_push(params@, pair);
                lemma_views_take_next(self.params@, i as int);
            }
            params.push(pair);
            i += 1;
        }
        assert(self.params@.take(i as int) =~= self.params@);
        RawCommand { group: self.group.clone(), command: self.command.clone(), params }
    }

    /// Reads the parameters that stand in `text` into a command that has
    /// none yet.
    fn read_params(&mut self, text: &str)
        requires
            old(self).wf(),
            old(self)@.params.len() == 0,
        ensures
            final(self).wf(),
            final(self)@ == (RawCommandView {
                params: collect_params(text_pairs(text@)),
                ..old(self)@
            }),
    {
        if text.is_empty() {
            assert(self@.params =~= Seq::empty());
            return ;
        }
        let items = split(text, '&');
        let ghost pairs = text_pairs(text@);
        let mut i: usize = 0;
        assert(self@.params =~= collect_params(pairs.take(0)));
        while i < items.len()
            invariant
                i <= items.len(),
                self.wf(),
                self@.group == old(self)@.group,
                self@.command == old(self)@.command,
                views(items@) == split_on(text@, '&'),
                pairs == split_on(text@, '&').map_values(|item: Seq<char>| split_pair(item)),
                self@.params == collect_params(pairs.take(i as int)),
            decreases items.len() - i,
        {
            let v = to_chars(items[i].as_str());
            let mid = find_char(&v, '=', 0, v.len());
            let key = from_chars(&v, 0, mid);
            let value = if mid < v.len() {
                from_chars(&v, mid + 1, v.len())
            } else {
                String::new()
            };
            proof {
                let item = items@[i as int]@;
                assert(views(items@)[i as int] == item);
                lemma_first_index(item, '=', 0, mid as int);
                assert(key@ =~= split_pair(item).0);
                assert(value@ =~= split_pair(item).1);
                assert(pairs.take(i + 1).drop_last() =~= pairs.take(i as int));
                assert(pairs.take(i + 1).last() == split_pair(item));
            }
            self.param(key.as_str(), value.as_str());
            i += 1;
        }
        assert(pairs.take(i as int) =~= pairs);
    }

    /// Reads the text form of a command.
    pub fn parse(text: &str) -> (r: Option<Self>)
        ensures
            match r {
                Some(c) => c.wf() && text_command(text@) == Some(c@),
                None => text_command(text@) is None,
            },
    {
        let v = to_chars(text);
        proof {
            reveal_strlit("heos://");
        }
        let ghost prefix = "heos://"@;
        if v.len() < 7 || v[0] != 'h' || v[1] != 'e' || v[2] != 'o' || v[3] != 's' || v[4] != ':'
            || v[5] != '/' || v[6] != '/' {
            proof {
                if v.len() >= 7 {
                    let head = v@.take(7);
                    assert(head[0] == v@[0] && head[1] == v@[1] && head[2] == v@[2] && head[3]
                        == v@[3] && head[4] == v@[4] && head[5] == v@[5] && head[6] == v@[6]);
                }
            }
            return None;
        }
        assert(v@.take(7) =~= prefix);
        let ghost rest = v@.skip(7);
        let slash = find_char(&v, '/', 7, v.len());
        proof {
            assert forall|k: int| 0 <= k < slash - 7 implies rest[k] != '/' by {
                assert(rest[k] == v@[k + 7]);
            }
            if slash < v.len() {
                assert(rest[slash - 7] == v@[slash as int]);
            }
            lemma_first_index(rest, '/', 0, slash - 7);
        }
        if slash == v.len() {
            return None;
        }
        let ghost tail = rest.skip(slash - 7 + 1);
        let mark = find_char(&v, '?', slash + 1, v.len());
        proof {
            assert(tail =~= v@.skip(slash + 1));
            assert forall|k: int| 0 <= k < mark - slash - 1 implies tail[k] != '?' by {
                assert(tail[k] == v@[k + slash + 1]);
            }
            if mark < v.len() {
                assert(tail[mark - slash - 1] == v@[mark as int]);
            }
            lemma_first_index(tail, '?', 0, mark - slash - 1);
        }
        let group = from_chars(&v, 7, slash);
        let name = from_chars(&v, slash + 1, mark);
        let mut c = RawCommand::new(group.as_str(), name.as_str());
        proof {
            assert(group@ =~= rest.take(slash - 7));
            assert(name@ =~= tail.take(mark - slash - 1));
        }
        if mark < v.len() {
            let rest = from_chars(&v, mark + 1, v.len());
            proof {
                assert(rest@ =~= tail.skip(mark - slash - 1 + 1));
            }
            c.read_params(rest.as_str());
        }
        Some(c)
    }
}

} // verus!
