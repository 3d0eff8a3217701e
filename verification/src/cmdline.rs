//! The key-value argument grammar shared by every device: `key[=value]` tokens separated
//! by commas, with no key given twice.

use crate::error::Error;
use crate::error::ErrorView;
use crate::text::find_char;
use crate::text::index_from;
use crate::text::index_of;
use crate::text::lemma_index_from;
use crate::text::split;
use crate::text::split_str;
use crate::text::str_eq;
use crate::text::views;
use vstd::prelude::*;

verus! {

/// The least index at or after `i` whose pair has the key `k`, or `p.len()` if there is none.
pub open spec fn key_index_from(p: Seq<(Seq<char>, Seq<char>)>, k: Seq<char>, i: nat) -> nat
    decreases p.len() - i,
{
    if i >= p.len() {
        p.len()
    } else if p[i as int].0 == k {
        i
    } else {
        key_index_from(p, k, i + 1)
    }
}

/// The least index whose pair has the key `k`, or `p.len()` if there is none.
pub open spec fn key_index(p: Seq<(Seq<char>, Seq<char>)>, k: Seq<char>) -> nat {
    key_index_from(p, k, 0)
}

/// Whether some pair has the key `k`.
pub open spec fn has_key(p: Seq<(Seq<char>, Seq<char>)>, k: Seq<char>) -> bool {
    key_index(p, k) < p.len()
}

/// The value of the first pair with the key `k`.
pub open spec fn lookup(p: Seq<(Seq<char>, Seq<char>)>, k: Seq<char>) -> Option<Seq<char>> {
    if has_key(p, k) {
        Some(p[key_index(p, k) as int].1)
    } else {
        None
    }
}

/// Whether no two pairs share a key.
pub open spec fn distinct_keys(p: Seq<(Seq<char>, Seq<char>)>) -> bool {
    forall|i: int, j: int| 0 <= i < j < p.len() ==> (#[trigger] p[i]).0 != (#[trigger] p[j]).0
}

/// The mapping that a list of pairs stands for.
pub open spec fn as_map(p: Seq<(Seq<char>, Seq<char>)>) -> Map<Seq<char>, Seq<char>> {
    Map::new(|k: Seq<char>| has_key(p, k), |k: Seq<char>| p[key_index(p, k) as int].1)
}

/// The pairs without the first one that has the key `k`.
pub open spec fn without_key(p: Seq<(Seq<char>, Seq<char>)>, k: Seq<char>) -> Seq<
    (Seq<char>, Seq<char>),
> {
    if has_key(p, k) {
        p.remove(key_index(p, k) as int)
    } else {
        p
    }
}

/// The pairs with `k` bound to `v`: in place where `k` is present, at the end otherwise.
pub open spec fn with_pair(p: Seq<(Seq<char>, Seq<char>)>, k: Seq<char>, v: Seq<char>) -> Seq<
    (Seq<char>, Seq<char>),
> {
    if has_key(p, k) {
        p.update(key_index(p, k) as int, (k, v))
    } else {
        p.push((k, v))
    }
}

/// `key_index_from` returns the least position that holds the key.
pub proof fn lemma_key_index_from(p: Seq<(Seq<char>, Seq<char>)>, k: Seq<char>, i: nat)
    requires
        i <= p.len(),
    ensures
        i <= key_index_from(p, k, i) <= p.len(),
        forall|j: int| i <= j < key_index_from(p, k, i) ==> (#[trigger] p[j]).0 != k,
        key_index_from(p, k, i) < p.len() ==> p[key_index_from(p, k, i) as int].0 == k,
    decreases p.len() - i,
{
    if i < p.len() && p[i as int].0 != k {
        lemma_key_index_from(p, k, i + 1);
    }
}

/// Among pairs with distinct keys, each pair is the first with its key.
pub proof fn lemma_key_index_distinct(p: Seq<(Seq<char>, Seq<char>)>, i: int)
    requires
        distinct_keys(p),
        0 <= i < p.len(),
    ensures
        key_index(p, p[i].0) == i,
{
    lemma_key_index_from(p, p[i].0, 0);
}

/// The key of a token: what stands before its first `=`, or all of it.
pub open spec fn token_key(t: Seq<char>) -> Seq<char> {
    t.subrange(0, index_of(t, '=') as int)
}

/// The value of a token: what stands after its first `=`, or nothing.
pub open spec fn token_value(t: Seq<char>) -> Seq<char> {
    if index_of(t, '=') < t.len() {
        t.subrange(index_of(t, '=') as int + 1, t.len() as int)
    } else {
        Seq::empty()
    }
}

/// Whether a token holds at most one `=`.
pub open spec fn token_ok(t: Seq<char>) -> bool {
    index_of(t, '=') < t.len() ==> index_from(t, '=', index_of(t, '=') + 1) == t.len()
}

/// The pairs of the tokens from position `i` on, added to `acc` in order; the error of the
/// first token that holds more than one `=` or repeats a key.
pub open spec fn parse_from(tokens: Seq<Seq<char>>, i: nat, acc: Seq<(Seq<char>, Seq<char>)>)
    -> Result<Seq<(Seq<char>, Seq<char>)>, ErrorView>
    decreases tokens.len() - i,
{
    if i >= tokens.len() {
        Ok(acc)
    } else {
        let t = tokens[i as int];
        if !token_ok(t) {
            Err(ErrorView::InvalidArgumentFormat { arg: t })
        } else if has_key(acc, token_key(t)) {
            Err(ErrorView::DuplicateKey { key: token_key(t), arg: t })
        } else {
            parse_from(tokens, i + 1, acc.push((token_key(t), token_value(t))))
        }
    }
}

/// The pairs that a sequence of tokens stands for.
pub open spec fn parse_tokens(tokens: Seq<Seq<char>>) -> Result<
    Seq<(Seq<char>, Seq<char>)>,
    ErrorView,
> {
    parse_from(tokens, 0, Seq::empty())
}

/// The pairs that an argument string stands for.
pub open spec fn parse_spec(s: Seq<char>) -> Result<Seq<(Seq<char>, Seq<char>)>, ErrorView> {
    parse_tokens(split(s, ','))
}

/// The arguments of one device: keys with their values, no key twice. A flag is a key
/// with the empty value. The order in which the keys were given is kept for reporting.
#[derive(Clone, Debug)]
pub struct ParsedArgs {
    pub entries: Vec<(String, String)>,
}

impl View for ParsedArgs {
    type V = Map<Seq<char>, Seq<char>>;

    open spec fn view(&self) -> Map<Seq<char>, Seq<char>> {
        as_map(self.pairs())
    }
}

impl ParsedArgs {
    /// The keys and values in the order in which they were given.
    pub open spec fn pairs(&self) -> Seq<(Seq<char>, Seq<char>)> {
        self.entries@.map_values(|e: (String, String)| (e.0@, e.1@))
    }

    /// The invariant: no key occurs twice.
    pub open spec fn wf(&self) -> bool {
        distinct_keys(self.pairs())
    }

    /// No arguments.
    pub fn new() -> (r: Self)
        ensures
            r.wf(),
            r.pairs() == Seq::<(Seq<char>, Seq<char>)>::empty(),
            r@ == Map::<Seq<char>, Seq<char>>::empty(),
    {
        let r = ParsedArgs { entries: Vec::new() };
        proof {
            assert(r.pairs() =~= Seq::<(Seq<char>, Seq<char>)>::empty());
            assert(r@ =~= Map::<Seq<char>, Seq<char>>::empty());
        }
        r
    }

    /// The number of keys.
    pub fn len(&self) -> (r: usize)
        ensures
            r == self.pairs().len(),
    {
        self.entries.len()
    }

    /// Whether there is no key.
    pub fn is_empty(&self) -> (r: bool)
        ensures
            r == (self.pairs().len() == 0),
    {
        self.entries.len() == 0
    }

    fn position(&self, key: &str) -> (r: usize)
        ensures
            r == key_index(self.pairs(), key@),
            r <= self.pairs().len(),
    {
        let n = self.entries.len();
        let mut i: usize = 0;
        while i < n
            invariant
                n == self.entries@.len(),
                i <= n,
                key_index(self.pairs(), key@) == key_index_from(self.pairs(), key@, i as nat),
            decreases n - i,
        {
            if str_eq(self.entries[i].0.as_str(), key) {
                return i;
            }
            i += 1;
        }
        i
    }

    /// Whether `key` is present.
    pub fn contains_key(&self, key: &str) -> (r: bool)
        ensures
            r == has_key(self.pairs(), key@),
            r == self@.contains_key(key@),
    {
        self.position(key) < self.entries.len()
    }

    /// The value of `key`, if it is present.
    pub fn get(&self, key: &str) -> (r: Option<&String>)
        ensures
            match r {
                Some(v) => lookup(self.pairs(), key@) == Some(v@),
                None => lookup(self.pairs(), key@) is None,
            },
    {
        let i = self.position(key);
        if i < self.entries.len() {
            Some(&self.entries[i].1)
        } else {
            None
        }
    }

    /// Binds `key` to `value` and returns the value that `key` had before, if any.
    pub fn insert(&mut self, key: String, value: String) -> (r: Option<String>)
        requires
            old(self).wf(),
        ensures
            final(self).wf(),
            final(self).pairs() == with_pair(old(self).pairs(), key@, value@),
            final(self)@ == old(self)@.insert(key@, value@),
            match r {
                Some(v) => lookup(old(self).pairs(), key@) == Some(v@),
                None => lookup(old(self).pairs(), key@) is None,
            },
    {
        let ghost before = self.pairs();
        let ghost k = key@;
        let ghost v = value@;
        let i = self.position(key.as_str());
        proof {
            lemma_key_index_from(before, k, 0);
        }
        let r = if i < self.entries.len() {
            let old_entry = self.entries.remove(i);
            self.entries.insert(i, (key, value));
            Some(old_entry.1)
        } else {
            self.entries.push((key, value));
            None
        };
        proof {
            let after = self.pairs();
            assert(after =~= with_pair(before, k, v));
            assert(distinct_keys(after)) by {
                assert forall|a: int, b: int| 0 <= a < b < after.len() implies (#[trigger] after[a]).0
                    != (#[trigger] after[b]).0 by {
                    if i < before.len() {
                        assert(after[a].0 == before[a].0);
                        assert(after[b].0 == before[b].0);
                    } else if b < before.len() {
                        assert(after[a] == before[a]);
                        assert(after[b] == before[b]);
                    } else {
                        assert(after[a] == before[a]);
                    }
                }
            }
            lemma_with_pair_map(before, k, v);
        }
        r
    }

    /// Takes `key` out and returns the value that it had, if it was present.
    pub fn remove(&mut self, key: &str) -> (r: Option<String>)
        requires
            old(self).wf(),
        ensures
            final(self).wf(),
            final(self).pairs() == without_key(old(self).pairs(), key@),
            final(self)@ == old(self)@.remove(key@),
            !has_key(final(self).pairs(), key@),
            forall|x: Seq<char>|
                x != key@ ==> #[trigger] lookup(final(self).pairs(), x) == lookup(
                    old(self).pairs(),
                    x,
                ),
            match r {
                Some(v) => lookup(old(self).pairs(), key@) == Some(v@),
                None => lookup(old(self).pairs(), key@) is None,
            },
    {
        let ghost before = self.pairs();
        let i = self.position(key);
        proof {
            lemma_key_index_from(before, key@, 0);
        }
        let r = if i < self.entries.len() {
            let entry = self.entries.remove(i);
            Some(entry.1)
        } else {
            None
        };
        proof {
            let after = self.pairs();
            assert(after =~= without_key(before, key@));
            lemma_without_key(before, key@);
        }
        r
    }
}

/// Binding a key in a list of pairs with distinct keys binds it in the mapping.
pub proof fn lemma_with_pair_map(p: Seq<(Seq<char>, Seq<char>)>, k: Seq<char>, v: Seq<char>)
    requires
        distinct_keys(p),
    ensures
        as_map(with_pair(p, k, v)) == as_map(p).insert(k, v),
{
    let q = with_pair(p, k, v);
    lemma_key_index_from(p, k, 0);
    assert forall|x: Seq<char>| #[trigger] has_key(q, x) == (x == k || has_key(p, x)) by {
        lemma_key_index_from(p, x, 0);
        lemma_key_index_from(q, x, 0);
        if has_key(p, x) {
            assert(q[key_index(p, x) as int].0 == x);
        }
        if has_key(q, x) && x != k {
            assert(p[key_index(q, x) as int].0 == x);
        }
        if x == k {
            if has_key(p, k) {
                assert(q[key_index(p, k) as int].0 == k);
            } else {
                assert(q[p.len() as int].0 == k);
            }
        }
    }
    assert forall|x: Seq<char>| has_key(q, x) implies #[trigger] q[key_index(q, x) as int].1
        == as_map(p).insert(k, v)[x] by {
        lemma_key_index_from(p, x, 0);
        lemma_key_index_from(q, x, 0);
        let iq = key_index(q, x) as int;
        if x == k {
            if has_key(p, k) {
                assert(q[key_index(p, k) as int].0 == k);
                assert(iq <= key_index(p, k));
                if iq < key_index(p, k) {
                    assert(p[iq].0 == k);
                }
            } else {
                if iq < p.len() {
                    assert(p[iq].0 == k);
                }
            }
        } else {
            assert(p[iq].0 == x);
            let ip = key_index(p, x) as int;
            assert(q[ip].0 == x);
        }
    }
    assert(as_map(q) =~= as_map(p).insert(k, v));
}

/// Taking a key out of a list of pairs with distinct keys takes it out of the mapping.
pub proof fn lemma_without_key(p: Seq<(Seq<char>, Seq<char>)>, k: Seq<char>)
    requires
        distinct_keys(p),
    ensures
        distinct_keys(without_key(p, k)),
        !has_key(without_key(p, k), k),
        as_map(without_key(p, k)) == as_map(p).remove(k),
        forall|x: Seq<char>| x != k ==> lookup(without_key(p, k), x) == lookup(p, x),
{
    let q = without_key(p, k);
    lemma_key_index_from(p, k, 0);
    lemma_key_index_from(q, k, 0);
    let i = key_index(p, k) as int;
    if has_key(p, k) {
        assert forall|a: int, b: int| 0 <= a < b < q.len() implies (#[trigger] q[a]).0 != (
        #[trigger] q[b]).0 by {
            let a2 = if a < i { a } else { a + 1 };
            let b2 = if b < i { b } else { b + 1 };
            assert(q[a] == p[a2]);
            assert(q[b] == p[b2]);
        }
        if has_key(q, k) {
            let j = key_index(q, k) as int;
            let j2 = if j < i { j } else { j + 1 };
            assert(q[j] == p[j2]);
            assert(p[i].0 == p[j2].0);
        }
    }
    assert forall|x: Seq<char>| x != k implies lookup(q, x) == lookup(p, x) by {
        lemma_key_index_from(p, x, 0);
        lemma_key_index_from(q, x, 0);
        if has_key(p, k) {
            if has_key(p, x) {
                let a = key_index(p, x) as int;
                let a2 = if a < i { a } else { a - 1 };
                assert(q[a2] == p[a]);
                let b = key_index(q, x) as int;
                let b2 = if b < i { b } else { b + 1 };
                assert(q[b] == p[b2]);
                assert(p[b2].0 == x);
                if a != b2 {
                    assert(p[a].0 == p[b2].0);
                }
            } else if has_key(q, x) {
                let b = key_index(q, x) as int;
                let b2 = if b < i { b } else { b + 1 };
                assert(q[b] == p[b2]);
                assert(p[b2].0 == x);
            }
        }
    }
    assert(as_map(q) =~= as_map(p).remove(k)) by {
        assert forall|x: Seq<char>| as_map(q).contains_key(x) == as_map(p).remove(
            k,
        ).contains_key(x) by {
            if x != k {
                assert(lookup(q, x) == lookup(p, x));
            }
        }
        assert forall|x: Seq<char>| as_map(q).contains_key(x) implies as_map(q)[x] == as_map(
            p,
        ).remove(k)[x] by {
            assert(lookup(q, x) == lookup(p, x));
        }
    }
}

/// The views of a sequence of string slices.
pub open spec fn strs(v: Seq<&str>) -> Seq<Seq<char>> {
    v.map_values(|x: &str| x@)
}

/// The least index at or after `i` of a required key that the pairs lack, or
/// `required.len()` if none is missing.
pub open spec fn first_missing_from(
    p: Seq<(Seq<char>, Seq<char>)>,
    required: Seq<Seq<char>>,
    i: nat,
) -> nat
    decreases required.len() - i,
{
    if i >= required.len() {
        required.len()
    } else if !has_key(p, required[i as int]) {
        i
    } else {
        first_missing_from(p, required, i + 1)
    }
}

/// `first_missing_from` returns the least position of a missing key.
pub proof fn lemma_first_missing_from(
    p: Seq<(Seq<char>, Seq<char>)>,
    required: Seq<Seq<char>>,
    i: nat,
)
    requires
        i <= required.len(),
    ensures
        i <= first_missing_from(p, required, i) <= required.len(),
        forall|j: int| i <= j < first_missing_from(p, required, i) ==> has_key(p, required[j]),
        first_missing_from(p, required, i) < required.len() ==> !has_key(
            p,
            required[first_missing_from(p, required, i) as int],
        ),
    decreases required.len() - i,
{
    if i < required.len() && has_key(p, required[i as int]) {
        lemma_first_missing_from(p, required, i + 1);
    }
}

/// Where no required key is missing, each of them has a value.
pub proof fn lemma_required_present(
    p: Seq<(Seq<char>, Seq<char>)>,
    label: Seq<char>,
    required: Seq<Seq<char>>,
    j: int,
)
    requires
        required_spec(p, label, required) is Ok,
        0 <= j < required.len(),
    ensures
        has_key(p, required[j]),
        lookup(p, required[j]) is Some,
{
    lemma_first_missing_from(p, required, 0);
}

/// What the check for required keys returns: nothing, or the first missing key.
pub open spec fn required_spec(
    p: Seq<(Seq<char>, Seq<char>)>,
    label: Seq<char>,
    required: Seq<Seq<char>>,
) -> Result<(), ErrorView> {
    let m = first_missing_from(p, required, 0);
    if m < required.len() {
        Err(ErrorView::MissingArgument { label, key: required[m as int] })
    } else {
        Ok(())
    }
}

/// Each pair written as `key=value`.
pub open spec fn assignments(p: Seq<(Seq<char>, Seq<char>)>) -> Seq<Seq<char>> {
    p.map_values(|e: (Seq<char>, Seq<char>)| e.0 + "="@ + e.1)
}

/// What the check for left-over keys returns: nothing, or all of them.
pub open spec fn unknown_spec(p: Seq<(Seq<char>, Seq<char>)>, label: Seq<char>) -> Result<
    (),
    ErrorView,
> {
    if p.len() == 0 {
        Ok(())
    } else {
        Err(ErrorView::UnknownArguments { label, args: assignments(p) })
    }
}

/// The truth value that a text stands for.
pub open spec fn boolean_spec(value: Seq<char>) -> Result<bool, ErrorView> {
    if value == "true"@ || value == "on"@ {
        Ok(true)
    } else if value == "false"@ || value == "off"@ {
        Ok(false)
    } else {
        Err(ErrorView::InvalidBoolean { value })
    }
}

/// Whether a result of parsing stands for the given pairs or error.
pub open spec fn parsed_as(
    r: Result<ParsedArgs, Error>,
    model: Result<Seq<(Seq<char>, Seq<char>)>, ErrorView>,
) -> bool {
    match model {
        Ok(p) => r matches Ok(a) && a.pairs() == p && a.wf(),
        Err(e) => r matches Err(x) && x@ == e,
    }
}

/// Whether a result without a value stands for the given outcome.
pub open spec fn checked_as(r: Result<(), Error>, model: Result<(), ErrorView>) -> bool {
    match model {
        Ok(_) => r is Ok,
        Err(e) => r matches Err(x) && x@ == e,
    }
}

/// Parses `key[=value]` tokens separated by commas. A token without `=` is a flag and
/// gets the empty value. A token with more than one `=`, or with a key that an earlier
/// token gave, is an error.
pub fn parse_args(s: String) -> (r: Result<ParsedArgs, Error>)
    ensures
        parsed_as(r, parse_spec(s@)),
{
    let tokens = split_str(s.as_str(), ',');
    let mut map = ParsedArgs::new();
    let mut i: usize = 0;
    while i < tokens.len()
        invariant
            i <= tokens.len(),
            views(tokens@) == split(s@, ','),
            map.wf(),
            parse_spec(s@) == parse_from(views(tokens@), i as nat, map.pairs()),
        decreases tokens.len() - i,
    {
        let tok = tokens[i].as_str();
        let ghost t = tok@;
        assert(views(tokens@)[i as int] == t);
        let n = tok.unicode_len();
        let eq = find_char(tok, '=', 0);
        if eq < n {
            let second = find_char(tok, '=', eq + 1);
            if second < n {
                return Err(Error::InvalidArgumentFormat { arg: String::from_str(tok) });
            }
        }
        let key = String::from_str(tok.substring_char(0, eq));
        let val = if eq < n {
            String::from_str(tok.substring_char(eq + 1, n))
        } else {
            String::new()
        };
        assert(key@ == token_key(t));
        assert(val@ == token_value(t));
        if map.contains_key(key.as_str()) {
            return Err(Error::DuplicateKey { key, arg: String::from_str(tok) });
        }
        map.insert(key, val);
        i += 1;
    }
    Ok(map)
}

/// Checks that every key of `required` is present, and names the first that is not.
pub fn check_required_args(args: &ParsedArgs, label: &str, required: &[&str]) -> (r: Result<
    (),
    Error,
>)
    ensures
        checked_as(r, required_spec(args.pairs(), label@, strs(required@))),
{
    let mut i: usize = 0;
    while i < required.len()
        invariant
            i <= required@.len(),
            first_missing_from(args.pairs(), strs(required@), 0) == first_missing_from(
                args.pairs(),
                strs(required@),
                i as nat,
            ),
        decreases required@.len() - i,
    {
        let key = required[i];
        assert(strs(required@)[i as int] == key@);
        if !args.contains_key(key) {
            return Err(
                Error::MissingArgument {
                    label: String::from_str(label),
                    key: String::from_str(key),
                },
            );
        }
        i += 1;
    }
    Ok(())
}

/// Checks that no key is left, and lists all that are.
pub fn check_unknown_args(args: ParsedArgs, label: &str) -> (r: Result<(), Error>)
    ensures
        checked_as(r, unknown_spec(args.pairs(), label@)),
{
    if args.is_empty() {
        return Ok(());
    }
    let mut list: Vec<String> = Vec::new();
    let mut i: usize = 0;
    while i < args.entries.len()
        invariant
            i <= args.entries@.len(),
            views(list@) == assignments(args.pairs()).take(i as int),
        decreases args.entries@.len() - i,
    {
        let mut item = String::from_str(args.entries[i].0.as_str());
        item.append("=");
        item.append(args.entries[i].1.as_str());
        proof {
            let p = args.pairs();
            assert(p[i as int] == (args.entries@[i as int].0@, args.entries@[i as int].1@));
            assert(assignments(p)[i as int] == item@);
            assert(views(list@.push(item)) =~= views(list@).push(item@));
            assert(assignments(p).take(i + 1) =~= assignments(p).take(i as int).push(item@));
        }
        list.push(item);
        i += 1;
    }
    proof {
        assert(assignments(args.pairs()).take(i as int) =~= assignments(args.pairs()));
    }
    Err(Error::UnknownArguments { label: String::from_str(label), args: list })
}

/// Reads a truth value: `true` and `on` stand for true, `false` and `off` for false.
pub fn parse_boolean(value: &str) -> (r: Result<bool, Error>)
    ensures
        match boolean_spec(value@) {
            Ok(b) => r == Ok::<bool, Error>(b),
            Err(e) => r matches Err(x) && x@ == e,
        },
{
    if str_eq(value, "true") || str_eq(value, "on") {
        Ok(true)
    } else if str_eq(value, "false") || str_eq(value, "off") {
        Ok(false)
    } else {
        Err(Error::InvalidBoolean { value: String::from_str(value) })
    }
}

/// The key and the value of a token.
pub open spec fn pair_of(t: Seq<char>) -> (Seq<char>, Seq<char>) {
    (token_key(t), token_value(t))
}

/// The key and the value of each token, in order.
pub open spec fn pairs_of(tokens: Seq<Seq<char>>) -> Seq<(Seq<char>, Seq<char>)> {
    tokens.map_values(|t: Seq<char>| pair_of(t))
}

/// Whether every token holds at most one `=` and no two tokens have the same key.
pub open spec fn tokens_valid(tokens: Seq<Seq<char>>) -> bool {
    &&& forall|i: int| 0 <= i < tokens.len() ==> token_ok(#[trigger] tokens[i])
    &&& forall|i: int, j: int|
        0 <= i < j < tokens.len() ==> token_key(#[trigger] tokens[i]) != token_key(
            #[trigger] tokens[j],
        )
}

proof fn lemma_parse_from_valid(tokens: Seq<Seq<char>>, i: nat, acc: Seq<(Seq<char>, Seq<char>)>)
    requires
        i <= tokens.len(),
        acc == pairs_of(tokens.take(i as int)),
        tokens_valid(tokens),
    ensures
        parse_from(tokens, i, acc) == Ok::<Seq<(Seq<char>, Seq<char>)>, ErrorView>(
            pairs_of(tokens),
        ),
    decreases tokens.len() - i,
{
    if i >= tokens.len() {
        assert(tokens.take(i as int) =~= tokens);
    } else {
        let t = tokens[i as int];
        lemma_key_index_from(acc, token_key(t), 0);
        if has_key(acc, token_key(t)) {
            let j = key_index(acc, token_key(t)) as int;
            assert(acc[j] == pair_of(tokens[j]));
            assert(token_key(tokens[j]) == token_key(tokens[i as int]));
        }
        let next = acc.push(pair_of(t));
        assert(next =~= pairs_of(tokens.take(i as int + 1)));
        lemma_parse_from_valid(tokens, i + 1, next);
    }
}

proof fn lemma_parse_from_ok(tokens: Seq<Seq<char>>, i: nat, acc: Seq<(Seq<char>, Seq<char>)>)
    requires
        i <= tokens.len(),
        acc == pairs_of(tokens.take(i as int)),
        tokens_valid(tokens.take(i as int)),
        parse_from(tokens, i, acc) is Ok,
    ensures
        tokens_valid(tokens),
    decreases tokens.len() - i,
{
    if i >= tokens.len() {
        assert(tokens.take(i as int) =~= tokens);
    } else {
        let t = tokens[i as int];
        let next = acc.push(pair_of(t));
        let head = tokens.take(i as int + 1);
        lemma_key_index_from(acc, token_key(t), 0);
        assert(next =~= pairs_of(head));
        assert forall|a: int| 0 <= a < head.len() implies token_ok(#[trigger] head[a]) by {
            if a < i {
                assert(head[a] == tokens.take(i as int)[a]);
            }
        }
        assert forall|a: int, b: int| 0 <= a < b < head.len() implies token_key(
            #[trigger] head[a],
        ) != token_key(#[trigger] head[b]) by {
            if b < i {
                assert(head[a] == tokens.take(i as int)[a]);
                assert(head[b] == tokens.take(i as int)[b]);
            } else {
                assert(acc[a] == pair_of(tokens[a]));
                assert(acc[a].0 == token_key(head[a]));
            }
        }
        lemma_parse_from_ok(tokens, i + 1, next);
    }
}

/// Parsing succeeds exactly on tokens that hold at most one `=` each and have distinct
/// keys, and then gives the key and the value of each token in order.
pub proof fn lemma_parse_tokens(tokens: Seq<Seq<char>>)
    ensures
        parse_tokens(tokens) is Ok <==> tokens_valid(tokens),
        tokens_valid(tokens) ==> parse_tokens(tokens) == Ok::<
            Seq<(Seq<char>, Seq<char>)>,
            ErrorView,
        >(pairs_of(tokens)),
{
    assert(tokens.take(0) =~= Seq::<Seq<char>>::empty());
    assert(pairs_of(tokens.take(0)) =~= Seq::<(Seq<char>, Seq<char>)>::empty());
    if tokens_valid(tokens) {
        lemma_parse_from_valid(tokens, 0, Seq::empty());
    }
    if parse_tokens(tokens) is Ok {
        lemma_parse_from_ok(tokens, 0, Seq::empty());
    }
}

proof fn lemma_valid_lookup(tokens: Seq<Seq<char>>, i: int)
    requires
        tokens_valid(tokens),
        0 <= i < tokens.len(),
    ensures
        key_index(pairs_of(tokens), token_key(tokens[i])) == i,
{
    let p = pairs_of(tokens);
    let k = token_key(tokens[i]);
    lemma_key_index_from(p, k, 0);
    let j = key_index(p, k) as int;
    assert(p[i].0 == k);
    if j < i {
        assert(p[j].0 == token_key(tokens[j]));
    }
}

proof fn lemma_same_members(t1: Seq<Seq<char>>, t2: Seq<Seq<char>>, x: Seq<char>)
    requires
        t1.to_multiset() == t2.to_multiset(),
        t1.contains(x),
    ensures
        t2.contains(x),
{
    t1.to_multiset_ensures();
    t2.to_multiset_ensures();
    assert(t1.to_multiset().count(x) > 0);
    assert(t2.to_multiset().count(x) > 0);
}

proof fn lemma_valid_permuted(t1: Seq<Seq<char>>, t2: Seq<Seq<char>>)
    requires
        t1.to_multiset() == t2.to_multiset(),
        tokens_valid(t1),
    ensures
        tokens_valid(t2),
{
    t1.to_multiset_ensures();
    t2.to_multiset_ensures();
    assert forall|a: int, b: int| 0 <= a < t1.len() && 0 <= b < t1.len() && a != b implies t1[a]
        != t1[b] by {
        if a < b {
            assert(token_key(t1[a]) != token_key(t1[b]));
        } else {
            assert(token_key(t1[b]) != token_key(t1[a]));
        }
    }
    assert(t1.no_duplicates());
    t1.unique_seq_to_set();
    assert(t1.to_set() =~= t2.to_set()) by {
        assert forall|x: Seq<char>| t1.to_set().contains(x) == t2.to_set().contains(x) by {
            assert(t1.contains(x) <==> t1.to_multiset().count(x) > 0);
            assert(t2.contains(x) <==> t2.to_multiset().count(x) > 0);
        }
    }
    t2.lemma_no_dup_set_cardinality();
    assert forall|a: int| 0 <= a < t2.len() implies token_ok(#[trigger] t2[a]) by {
        assert(t2.contains(t2[a]));
        lemma_same_members(t2, t1, t2[a]);
        let i = choose|i: int| 0 <= i < t1.len() && t1[i] == t2[a];
        assert(token_ok(t1[i]));
    }
    assert forall|a: int, b: int| 0 <= a < b < t2.len() implies token_key(#[trigger] t2[a])
        != token_key(#[trigger] t2[b]) by {
        assert(t2.contains(t2[a]));
        assert(t2.contains(t2[b]));
        lemma_same_members(t2, t1, t2[a]);
        lemma_same_members(t2, t1, t2[b]);
        let i = choose|i: int| 0 <= i < t1.len() && t1[i] == t2[a];
        let j = choose|j: int| 0 <= j < t1.len() && t1[j] == t2[b];
        assert(t2[a] != t2[b]);
        if i < j {
            assert(token_key(t1[i]) != token_key(t1[j]));
        } else {
            assert(token_key(t1[j]) != token_key(t1[i]));
        }
    }
}

proof fn lemma_map_included(t1: Seq<Seq<char>>, t2: Seq<Seq<char>>, x: Seq<char>)
    requires
        t1.to_multiset() == t2.to_multiset(),
        tokens_valid(t1),
        tokens_valid(t2),
        has_key(pairs_of(t1), x),
    ensures
        has_key(pairs_of(t2), x),
        lookup(pairs_of(t2), x) == lookup(pairs_of(t1), x),
{
    t1.to_multiset_ensures();
    t2.to_multiset_ensures();
    let p1 = pairs_of(t1);
    let p2 = pairs_of(t2);
    lemma_key_index_from(p1, x, 0);
    let i = key_index(p1, x) as int;
    assert(p1[i] == pair_of(t1[i]));
    assert(t1.contains(t1[i]));
    lemma_same_members(t1, t2, t1[i]);
    let j = choose|j: int| 0 <= j < t2.len() && t2[j] == t1[i];
    lemma_valid_lookup(t2, j);
    assert(p2[j] == pair_of(t2[j]));
}

/// Parsing does not depend on the order of the tokens: where two sequences hold the
/// same tokens, each as often as the other, and one of them parses, the other parses
/// too, and both stand for the same mapping.
pub proof fn lemma_parse_order_independent(t1: Seq<Seq<char>>, t2: Seq<Seq<char>>)
    requires
        t1.to_multiset() == t2.to_multiset(),
        parse_tokens(t1) is Ok,
    ensures
        parse_tokens(t2) is Ok,
        as_map(parse_tokens(t1)->Ok_0) == as_map(parse_tokens(t2)->Ok_0),
{
    lemma_parse_tokens(t1);
    lemma_valid_permuted(t1, t2);
    lemma_parse_tokens(t2);
    let p1 = pairs_of(t1);
    let p2 = pairs_of(t2);
    assert forall|x: Seq<char>| has_key(p1, x) == has_key(p2, x) by {
        if has_key(p1, x) {
            lemma_map_included(t1, t2, x);
        }
        if has_key(p2, x) {
            lemma_map_included(t2, t1, x);
        }
    }
    assert forall|x: Seq<char>| has_key(p1, x) implies lookup(p1, x) == lookup(p2, x) by {
        lemma_map_included(t1, t2, x);
    }
    assert(as_map(p1) =~= as_map(p2)) by {
        assert forall|x: Seq<char>| as_map(p1).contains_key(x) implies as_map(p1)[x] == as_map(
            p2,
        )[x] by {
            assert(lookup(p1, x) == lookup(p2, x));
        }
    }
}

proof fn lemma_duplicate_from(
    tokens: Seq<Seq<char>>,
    n: nat,
    acc: Seq<(Seq<char>, Seq<char>)>,
    i: int,
    j: int,
)
    requires
        0 <= i < j < tokens.len(),
        token_key(tokens[i]) == token_key(tokens[j]),
        forall|k: int| 0 <= k <= j ==> token_ok(#[trigger] tokens[k]),
        n <= j,
        acc == pairs_of(tokens.take(n as int)),
    ensures
        parse_from(tokens, n, acc) matches Err(e) && e is DuplicateKey,
    decreases tokens.len() - n,
{
    let t = tokens[n as int];
    assert(token_ok(t));
    lemma_key_index_from(acc, token_key(t), 0);
    if !has_key(acc, token_key(t)) {
        if n == j {
            assert(acc[i] == pair_of(tokens[i]));
        }
        let next = acc.push(pair_of(t));
        assert(next =~= pairs_of(tokens.take(n as int + 1)));
        lemma_duplicate_from(tokens, n + 1, next, i, j);
    }
}

/// Tokens of which two have the same key do not parse: where every token up to the
/// second of them holds at most one `=`, the error is that of a duplicate key.
pub proof fn lemma_duplicate_key_fails(tokens: Seq<Seq<char>>, i: int, j: int)
    requires
        0 <= i < j < tokens.len(),
        token_key(tokens[i]) == token_key(tokens[j]),
        forall|k: int| 0 <= k <= j ==> token_ok(#[trigger] tokens[k]),
    ensures
        parse_tokens(tokens) matches Err(e) && e is DuplicateKey,
{
    assert(tokens.take(0) =~= Seq::<Seq<char>>::empty());
    assert(pairs_of(tokens.take(0)) =~= Seq::<(Seq<char>, Seq<char>)>::empty());
    lemma_duplicate_from(tokens, 0, Seq::empty(), i, j);
}

impl ParsedArgs {
    /// Whether `key` is bound to `value`.
    pub fn contains_pair(&self, key: &str, value: &str) -> (r: bool)
        ensures
            r == self.pairs().contains((key@, value@)),
    {
        let n = self.entries.len();
        let mut i: usize = 0;
        while i < n
            invariant
                n == self.entries@.len(),
                i <= n,
                forall|j: int| 0 <= j < i ==> self.pairs()[j] != (key@, value@),
            decreases n - i,
        {
            if str_eq(self.entries[i].0.as_str(), key) && str_eq(
                self.entries[i].1.as_str(),
                value,
            ) {
                assert(self.pairs()[i as int] == (key@, value@));
                return true;
            }
            i += 1;
        }
        false
    }

    /// Whether `other` binds every key of `self` to the same value.
    pub fn included_in(&self, other: &ParsedArgs) -> (r: bool)
        ensures
            r == (forall|i: int|
                0 <= i < self.pairs().len() ==> other.pairs().contains(#[trigger] self.pairs()[i])),
    {
        let n = self.entries.len();
        let mut i: usize = 0;
        while i < n
            invariant
                n == self.entries@.len(),
                i <= n,
                forall|j: int| 0 <= j < i ==> other.pairs().contains(#[trigger] self.pairs()[j]),
            decreases n - i,
        {
            if !other.contains_pair(self.entries[i].0.as_str(), self.entries[i].1.as_str()) {
                assert(!other.pairs().contains(self.pairs()[i as int]));
                return false;
            }
            i += 1;
        }
        true
    }

    /// Whether both hold the same keys with the same values, in whatever order.
    pub fn same_mapping(&self, other: &ParsedArgs) -> (r: bool)
        ensures
            r == (self.pairs().to_set() == other.pairs().to_set()),
    {
        let r = self.included_in(other) && other.included_in(self);
        proof {
            let a = self.pairs();
            let b = other.pairs();
            if r {
                assert forall|x: (Seq<char>, Seq<char>)| a.to_set().contains(x) == b.to_set().contains(
                    x,
                ) by {
                    if a.contains(x) {
                        let i = choose|i: int| 0 <= i < a.len() && a[i] == x;
                        assert(b.contains(a[i]));
                    }
                    if b.contains(x) {
                        let i = choose|i: int| 0 <= i < b.len() && b[i] == x;
                        assert(a.contains(b[i]));
                    }
                }
                assert(a.to_set() =~= b.to_set());
            } else {
                if !(forall|i: int| 0 <= i < a.len() ==> b.contains(#[trigger] a[i])) {
                    let i = choose|i: int| 0 <= i < a.len() && !b.contains(#[trigger] a[i]);
                    assert(a.contains(a[i]));
                    assert(a.to_set().contains(a[i]));
                    assert(!b.to_set().contains(a[i]));
                } else {
                    let i = choose|i: int| 0 <= i < b.len() && !a.contains(#[trigger] b[i]);
                    assert(b.contains(b[i]));
                    assert(b.to_set().contains(b[i]));
                    assert(!a.to_set().contains(b[i]));
                }
            }
        }
        r
    }
}

impl PartialEq for ParsedArgs {
    fn eq(&self, other: &ParsedArgs) -> (r: bool) {
        self.same_mapping(other)
    }
}

impl vstd::std_specs::cmp::PartialEqSpecImpl for ParsedArgs {
    open spec fn obeys_eq_spec() -> bool {
        true
    }

    open spec fn eq_spec(&self, other: &ParsedArgs) -> bool {
        self.pairs().to_set() == other.pairs().to_set()
    }
}

/// Two lists of pairs with distinct keys hold the same pairs exactly where they stand
/// for the same mapping.
pub proof fn lemma_same_pairs_same_map(
    a: Seq<(Seq<char>, Seq<char>)>,
    b: Seq<(Seq<char>, Seq<char>)>,
)
    requires
        distinct_keys(a),
        distinct_keys(b),
    ensures
        (a.to_set() == b.to_set()) <==> (as_map(a) == as_map(b)),
{
    if a.to_set() == b.to_set() {
        assert forall|x: Seq<char>| has_key(a, x) implies has_key(b, x) && lookup(a, x) == lookup(
            b,
            x,
        ) by {
            lemma_pair_found(a, b, x);
        }
        assert forall|x: Seq<char>| has_key(b, x) implies has_key(a, x) by {
            lemma_pair_found(b, a, x);
        }
        assert(as_map(a) =~= as_map(b)) by {
            assert forall|x: Seq<char>| as_map(a).contains_key(x) implies as_map(a)[x] == as_map(
                b,
            )[x] by {
                assert(lookup(a, x) == lookup(b, x));
            }
        }
    }
    if as_map(a) == as_map(b) {
        assert forall|e: (Seq<char>, Seq<char>)| a.to_set().contains(e) == b.to_set().contains(
            e,
        ) by {
            if a.contains(e) {
                lemma_pair_in_map(a, b, e);
            }
            if b.contains(e) {
                lemma_pair_in_map(b, a, e);
            }
        }
        assert(a.to_set() =~= b.to_set());
    }
}

proof fn lemma_pair_found(a: Seq<(Seq<char>, Seq<char>)>, b: Seq<(Seq<char>, Seq<char>)>, x: Seq<char>)
    requires
        distinct_keys(a),
        distinct_keys(b),
        a.to_set() == b.to_set(),
        has_key(a, x),
    ensures
        has_key(b, x),
        lookup(a, x) == lookup(b, x),
{
    lemma_key_index_from(a, x, 0);
    let i = key_index(a, x) as int;
    assert(a.contains(a[i]));
    assert(a.to_set().contains(a[i]));
    assert(b.to_set().contains(a[i]));
    assert(b.contains(a[i]));
    let j = choose|j: int| 0 <= j < b.len() && b[j] == a[i];
    lemma_key_index_distinct(b, j);
}

proof fn lemma_pair_in_map(
    a: Seq<(Seq<char>, Seq<char>)>,
    b: Seq<(Seq<char>, Seq<char>)>,
    e: (Seq<char>, Seq<char>),
)
    requires
        distinct_keys(a),
        distinct_keys(b),
        as_map(a) == as_map(b),
        a.contains(e),
    ensures
        b.contains(e),
{
    let i = choose|i: int| 0 <= i < a.len() && a[i] == e;
    lemma_key_index_distinct(a, i);
    assert(as_map(a).contains_key(e.0));
    assert(as_map(a)[e.0] == e.1);
    assert(as_map(b).contains_key(e.0));
    lemma_key_index_from(b, e.0, 0);
    let j = key_index(b, e.0) as int;
    assert(as_map(b)[e.0] == b[j].1);
    assert(b[j] == e);
}

/// Parsing an argument string does not depend on the order of its tokens: of two
/// sequences that hold the same comma-free tokens, each as often as the other, joined
/// with commas, either both parse or neither does, and where they parse they stand for
/// the same mapping.
pub proof fn lemma_parse_spec_order_independent(t1: Seq<Seq<char>>, t2: Seq<Seq<char>>)
    requires
        t1.len() >= 1,
        t1.to_multiset() == t2.to_multiset(),
        forall|i: int| 0 <= i < t1.len() ==> !(#[trigger] t1[i]).contains(','),
    ensures
        parse_spec(crate::text::join(t1, ',')) is Ok <==> parse_spec(crate::text::join(t2, ','))
            is Ok,
        parse_spec(crate::text::join(t1, ',')) is Ok ==> as_map(
            parse_spec(crate::text::join(t1, ','))->Ok_0,
        ) == as_map(parse_spec(crate::text::join(t2, ','))->Ok_0),
{
    t1.to_multiset_ensures();
    t2.to_multiset_ensures();
    assert forall|i: int| 0 <= i < t2.len() implies !(#[trigger] t2[i]).contains(',') by {
        assert(t2.contains(t2[i]));
        lemma_same_members(t2, t1, t2[i]);
        let j = choose|j: int| 0 <= j < t1.len() && t1[j] == t2[i];
        assert(!t1[j].contains(','));
    }
    crate::text::lemma_split_join(t1, ',');
    crate::text::lemma_split_join(t2, ',');
    if parse_tokens(t1) is Ok {
        lemma_parse_order_independent(t1, t2);
    }
    if parse_tokens(t2) is Ok {
        lemma_parse_order_independent(t2, t1);
    }
}

/// An argument string of which two tokens have the same key does not parse: where
/// every token up to the second of them holds at most one `=`, the error is that of a
/// duplicate key.
pub proof fn lemma_duplicate_key_in_string(s: Seq<char>, i: int, j: int)
    requires
        0 <= i < j < split(s, ',').len(),
        token_key(split(s, ',')[i]) == token_key(split(s, ',')[j]),
        forall|k: int| 0 <= k <= j ==> token_ok(#[trigger] split(s, ',')[k]),
    ensures
        parse_spec(s) matches Err(e) && e is DuplicateKey,
{
    lemma_duplicate_key_fails(split(s, ','), i, j);
}

/// A token made of a key, `=` and a value, neither of which holds `=`, has that key and
/// that value.
pub proof fn lemma_token_parts(k: Seq<char>, v: Seq<char>)
    requires
        !k.contains('='),
        !v.contains('='),
    ensures
        token_ok(k + seq!['='] + v),
        token_key(k + seq!['='] + v) == k,
        token_value(k + seq!['='] + v) == v,
{
    let t = k + seq!['='] + v;
    lemma_index_from(t, '=', 0);
    let r = index_of(t, '=') as int;
    assert(t[k.len() as int] == '=');
    if r < k.len() {
        assert(t[r] == k[r]);
        assert(k.contains(k[r]));
    }
    assert(r == k.len());
    lemma_index_from(t, '=', (r + 1) as nat);
    let r2 = index_from(t, '=', (r + 1) as nat) as int;
    if r2 < t.len() {
        assert(t[r2] == v[r2 - r - 1]);
        assert(v.contains(v[r2 - r - 1]));
    }
    assert(t.subrange(0, r) =~= k);
    assert(t.subrange(r + 1, t.len() as int) =~= v);
}

/// Two assignments with different keys, joined by a comma, parse into their two pairs,
/// where keys and values hold neither `=` nor a comma.
pub proof fn lemma_parse_two(k1: Seq<char>, v1: Seq<char>, k2: Seq<char>, v2: Seq<char>)
    requires
        k1 != k2,
        !k1.contains('=') && !k1.contains(','),
        !v1.contains('=') && !v1.contains(','),
        !k2.contains('=') && !k2.contains(','),
        !v2.contains('=') && !v2.contains(','),
    ensures
        parse_spec(k1 + seq!['='] + v1 + seq![','] + (k2 + seq!['='] + v2)) == Ok::<
            Seq<(Seq<char>, Seq<char>)>,
            ErrorView,
        >(seq![(k1, v1), (k2, v2)]),
{
    let t1 = k1 + seq!['='] + v1;
    let t2 = k2 + seq!['='] + v2;
    let tokens = seq![t1, t2];
    lemma_token_parts(k1, v1);
    lemma_token_parts(k2, v2);
    assert forall|i: int| 0 <= i < tokens.len() implies !(#[trigger] tokens[i]).contains(',') by {
        let t = tokens[i];
        let k = if i == 0 { k1 } else { k2 };
        let v = if i == 0 { v1 } else { v2 };
        if t.contains(',') {
            let j = choose|j: int| 0 <= j < t.len() && t[j] == ',';
            if j < k.len() {
                assert(k.contains(k[j]));
            } else if j > k.len() {
                assert(v.contains(v[j - k.len() - 1]));
            }
        }
    }
    crate::text::lemma_split_join(tokens, ',');
    assert(tokens.drop_first() =~= seq![t2]);
    assert(crate::text::join(seq![t2], ',') == t2);
    assert(crate::text::join(tokens, ',') == t1 + seq![','] + t2);
    lemma_parse_tokens(tokens);
    assert(pairs_of(tokens) =~= seq![(k1, v1), (k2, v2)]);
}

/// A flag that holds neither `=` nor a comma parses into the one pair of that key and
/// the empty value.
pub proof fn lemma_parse_flag(k: Seq<char>)
    requires
        !k.contains('='),
        !k.contains(','),
    ensures
        parse_spec(k) == Ok::<Seq<(Seq<char>, Seq<char>)>, ErrorView>(seq![(k, Seq::empty())]),
{
    let tokens = seq![k];
    crate::text::lemma_split_join(tokens, ',');
    lemma_index_from(k, '=', 0);
    let r = index_of(k, '=') as int;
    if r < k.len() {
        assert(k.contains(k[r]));
    }
    assert(k.subrange(0, r) =~= k);
    lemma_parse_tokens(tokens);
    assert(pairs_of(tokens) =~= seq![(k, Seq::<char>::empty())]);
}

/// One assignment whose key and value hold neither `=` nor a comma parses into the one
/// pair of that key and that value.
pub proof fn lemma_parse_one(k: Seq<char>, v: Seq<char>)
    requires
        !k.contains('=') && !k.contains(','),
        !v.contains('=') && !v.contains(','),
    ensures
        parse_spec(k + seq!['='] + v) == Ok::<Seq<(Seq<char>, Seq<char>)>, ErrorView>(
            seq![(k, v)],
        ),
{
    let t = k + seq!['='] + v;
    let tokens = seq![t];
    lemma_token_parts(k, v);
    if t.contains(',') {
        let j = choose|j: int| 0 <= j < t.len() && t[j] == ',';
        if j < k.len() {
            assert(k.contains(k[j]));
        } else if j > k.len() {
            assert(v.contains(v[j - k.len() - 1]));
        }
    }
    crate::text::lemma_split_join(tokens, ',');
    lemma_parse_tokens(tokens);
    assert(pairs_of(tokens) =~= seq![(k, v)]);
}

} // verus!
