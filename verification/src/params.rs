//! The string-to-string parameter map that request builders fill and that
//! is sent as a query string or as a form body.

use crate::text::{
    decimal, decimal_text, lemma_text_lt_irreflexive, lemma_text_lt_total, lemma_text_lt_transitive,
    same_text, text_less, text_lt,
};
use vstd::prelude::*;

verus! {

/// The text that stands for a boolean on the wire: `1` or `0`.
pub open spec fn flag_text(value: bool) -> Seq<char> {
    if value {
        seq!['1']
    } else {
        seq!['0']
    }
}

/// `m` with `key` set where a value is given, else `m` unchanged.
pub open spec fn put_opt(
    m: Map<Seq<char>, Seq<char>>,
    key: Seq<char>,
    value: Option<Seq<char>>,
) -> Map<Seq<char>, Seq<char>> {
    match value {
        Some(v) => m.insert(key, v),
        None => m,
    }
}

/// `m` with `key` set to the wire text of `value`.
pub open spec fn put_flag(m: Map<Seq<char>, Seq<char>>, key: Seq<char>, value: bool) -> Map<
    Seq<char>,
    Seq<char>,
> {
    m.insert(key, flag_text(value))
}

/// The decimal text of an optional 32-bit number.
pub open spec fn opt_decimal_u32(value: Option<u32>) -> Option<Seq<char>> {
    match value {
        Some(n) => Some(decimal(n as nat)),
        None => None,
    }
}

/// The decimal text of an optional 64-bit number.
pub open spec fn opt_decimal_u64(value: Option<u64>) -> Option<Seq<char>> {
    match value {
        Some(n) => Some(decimal(n as nat)),
        None => None,
    }
}

/// The wire text of an optional boolean.
pub open spec fn opt_flag(value: Option<bool>) -> Option<Seq<char>> {
    match value {
        Some(b) => Some(flag_text(b)),
        None => None,
    }
}

/// No two pairs of `s` share a key.
pub open spec fn distinct_keys(s: Seq<(String, String)>) -> bool {
    forall|i: int, j: int| 0 <= i < j < s.len() ==> (#[trigger] s[i]).0@ != (#[trigger] s[j]).0@
}

/// The keys of `s` are in strictly ascending dictionary order.
pub open spec fn sorted_keys(s: Seq<(String, String)>) -> bool {
    forall|i: int, j: int|
        0 <= i < j < s.len() ==> text_lt((#[trigger] s[i]).0@, (#[trigger] s[j]).0@)
}

/// Keys in strictly ascending order are distinct.
pub proof fn lemma_sorted_keys_distinct(s: Seq<(String, String)>)
    requires
        sorted_keys(s),
    ensures
        distinct_keys(s),
{
    assert forall|i: int, j: int| 0 <= i < j < s.len() implies (#[trigger] s[i]).0@ != (
    #[trigger] s[j]).0@ by {
        lemma_text_lt_irreflexive(s[i].0@);
    }
}

/// The map that a list of pairs stands for; a later pair wins.
pub open spec fn pairs_map(s: Seq<(String, String)>) -> Map<Seq<char>, Seq<char>>
    decreases s.len(),
{
    if s.len() == 0 {
        Map::empty()
    } else {
        pairs_map(s.drop_last()).insert(s.last().0@, s.last().1@)
    }
}

/// A key is in the map of a list exactly when some pair carries it.
pub proof fn lemma_pairs_map_dom(s: Seq<(String, String)>, key: Seq<char>)
    ensures
        pairs_map(s).contains_key(key) <==> exists|i: int|
            0 <= i < s.len() && (#[trigger] s[i]).0@ == key,
    decreases s.len(),
{
    if s.len() > 0 {
        let front = s.drop_last();
        lemma_pairs_map_dom(front, key);
        if pairs_map(s).contains_key(key) {
            if s.last().0@ == key {
                assert(s[s.len() - 1].0@ == key);
            } else {
                let i = choose|i: int| 0 <= i < front.len() && (#[trigger] front[i]).0@ == key;
                assert(s[i].0@ == key);
            }
        }
        if exists|i: int| 0 <= i < s.len() && (#[trigger] s[i]).0@ == key {
            let i = choose|i: int| 0 <= i < s.len() && (#[trigger] s[i]).0@ == key;
            if i < s.len() - 1 {
                assert(front[i].0@ == key);
            }
        }
    }
}

/// With distinct keys, each pair's key maps to that pair's value.
pub proof fn lemma_pairs_map_at(s: Seq<(String, String)>, i: int)
    requires
        distinct_keys(s),
        0 <= i < s.len(),
    ensures
        pairs_map(s).contains_key(s[i].0@),
        pairs_map(s)[s[i].0@] == s[i].1@,
    decreases s.len(),
{
    let front = s.drop_last();
    if i < s.len() - 1 {
        assert(distinct_keys(front)) by {
            assert forall|a: int, b: int| 0 <= a < b < front.len() implies (#[trigger] front[a]).0@
                != (#[trigger] front[b]).0@ by {
                assert(front[a] == s[a] && front[b] == s[b]);
            }
        }
        lemma_pairs_map_at(front, i);
        assert(front[i] == s[i]);
        assert(s[i].0@ != s[s.len() - 1].0@);
    }
}

/// Taking a pair out of a list with distinct keys removes its key from the map.
pub proof fn lemma_pairs_map_remove(s: Seq<(String, String)>, i: int)
    requires
        distinct_keys(s),
        0 <= i < s.len(),
    ensures
        distinct_keys(s.remove(i)),
        pairs_map(s.remove(i)) == pairs_map(s).remove(s[i].0@),
    decreases s.len(),
{
    let out = s.remove(i);
    assert forall|a: int, b: int| 0 <= a < b < out.len() implies (#[trigger] out[a]).0@ != (
    #[trigger] out[b]).0@ by {
        let a2 = if a < i {
            a
        } else {
            a + 1
        };
        let b2 = if b < i {
            b
        } else {
            b + 1
        };
        assert(out[a] == s[a2] && out[b] == s[b2]);
    }
    let front = s.drop_last();
    assert(distinct_keys(front)) by {
        assert forall|a: int, b: int| 0 <= a < b < front.len() implies (#[trigger] front[a]).0@ != (
        #[trigger] front[b]).0@ by {
            assert(front[a] == s[a] && front[b] == s[b]);
        }
    }
    if i == s.len() - 1 {
        assert(out =~= front);
        lemma_pairs_map_dom(front, s[i].0@);
        if pairs_map(front).contains_key(s[i].0@) {
            let j = choose|j: int| 0 <= j < front.len() && (#[trigger] front[j]).0@ == s[i].0@;
            assert(front[j] == s[j]);
        }
        assert(pairs_map(front) =~= pairs_map(s).remove(s[i].0@));
    } else {
        lemma_pairs_map_remove(front, i);
        assert(out.drop_last() =~= front.remove(i));
        assert(out.last() == s.last());
        assert(front[i] == s[i]);
        assert(s[i].0@ != s[s.len() - 1].0@);
        assert(pairs_map(out) =~= pairs_map(s).remove(s[i].0@));
    }
}

/// Taking a pair out of a sorted list leaves it sorted.
pub proof fn lemma_sorted_keys_remove(s: Seq<(String, String)>, i: int)
    requires
        sorted_keys(s),
        0 <= i < s.len(),
    ensures
        sorted_keys(s.remove(i)),
{
    let out = s.remove(i);
    assert forall|a: int, b: int| 0 <= a < b < out.len() implies text_lt(
        (#[trigger] out[a]).0@,
        (#[trigger] out[b]).0@,
    ) by {
        let a2 = if a < i {
            a
        } else {
            a + 1
        };
        let b2 = if b < i {
            b
        } else {
            b + 1
        };
        assert(out[a] == s[a2] && out[b] == s[b2]);
    }
}

/// Putting a pair into a sorted list at the place where its key belongs
/// leaves the list sorted and sets the key in the map.
pub proof fn lemma_sorted_keys_insert(s: Seq<(String, String)>, i: int, pair: (String, String))
    requires
        sorted_keys(s),
        0 <= i <= s.len(),
        forall|k: int| 0 <= k < i ==> text_lt((#[trigger] s[k]).0@, pair.0@),
        forall|k: int| i <= k < s.len() ==> text_lt(pair.0@, (#[trigger] s[k]).0@),
    ensures
        sorted_keys(s.insert(i, pair)),
        pairs_map(s.insert(i, pair)) == pairs_map(s).insert(pair.0@, pair.1@),
    decreases s.len(),
{
    let t = s.insert(i, pair);
    assert forall|a: int, b: int| 0 <= a < b < t.len() implies text_lt(
        (#[trigger] t[a]).0@,
        (#[trigger] t[b]).0@,
    ) by {
        if a < i && b > i {
            assert(t[a] == s[a] && t[b] == s[b - 1]);
        } else if a < i && b < i {
            assert(t[a] == s[a] && t[b] == s[b]);
        } else if a < i && b == i {
            assert(t[a] == s[a]);
        } else if a == i {
            assert(t[b] == s[b - 1]);
        } else {
            assert(t[a] == s[a - 1] && t[b] == s[b - 1]);
        }
    }
    if i == s.len() {
        assert(t.drop_last() =~= s);
    } else {
        let front = s.drop_last();
        assert(sorted_keys(front)) by {
            assert forall|a: int, b: int| 0 <= a < b < front.len() implies text_lt(
                (#[trigger] front[a]).0@,
                (#[trigger] front[b]).0@,
            ) by {
                assert(front[a] == s[a] && front[b] == s[b]);
            }
        }
        assert forall|k: int| 0 <= k < i implies text_lt((#[trigger] front[k]).0@, pair.0@) by {
            assert(front[k] == s[k]);
        }
        assert forall|k: int| i <= k < front.len() implies text_lt(
            pair.0@,
            (#[trigger] front[k]).0@,
        ) by {
            assert(front[k] == s[k]);
        }
        lemma_sorted_keys_insert(front, i, pair);
        assert(t.drop_last() =~= front.insert(i, pair));
        assert(t.last() == s.last());
        assert(text_lt(pair.0@, s[s.len() - 1].0@));
        lemma_text_lt_irreflexive(pair.0@);
        assert(pairs_map(t) =~= pairs_map(s).insert(pair.0@, pair.1@));
    }
}

/// A map has one sorted list of pairs only: two sorted lists that stand
/// for the same map hold the same keys and values at the same places, so
/// the order in which a map was filled does not show in its pairs.
pub proof fn lemma_sorted_pairs_canonical(s: Seq<(String, String)>, t: Seq<(String, String)>)
    requires
        sorted_keys(s),
        sorted_keys(t),
        pairs_map(s) == pairs_map(t),
    ensures
        s.len() == t.len(),
        forall|i: int|
            0 <= i < s.len() ==> (#[trigger] s[i]).0@ == t[i].0@ && s[i].1@ == t[i].1@,
    decreases s.len(),
{
    lemma_sorted_keys_distinct(s);
    lemma_sorted_keys_distinct(t);
    if s.len() == 0 {
        if t.len() > 0 {
            lemma_pairs_map_at(t, t.len() - 1);
        }
    } else if t.len() == 0 {
        lemma_pairs_map_at(s, s.len() - 1);
    } else {
        let m = pairs_map(s);
        let ls = s.len() - 1;
        let lt = t.len() - 1;
        let ks = s[ls].0@;
        let kt = t[lt].0@;
        lemma_pairs_map_at(s, ls);
        lemma_pairs_map_at(t, lt);
        lemma_pairs_map_dom(s, kt);
        lemma_pairs_map_dom(t, ks);
        let i = choose|i: int| 0 <= i < s.len() && (#[trigger] s[i]).0@ == kt;
        let j = choose|j: int| 0 <= j < t.len() && (#[trigger] t[j]).0@ == ks;
        if i < ls {
            assert(text_lt(s[i].0@, s[ls].0@));
            if j < lt {
                assert(text_lt(t[j].0@, t[lt].0@));
                lemma_text_lt_transitive(kt, ks, kt);
            }
            lemma_text_lt_irreflexive(kt);
        }
        assert(ks == kt);
        lemma_pairs_map_remove(s, ls);
        lemma_pairs_map_remove(t, lt);
        lemma_sorted_keys_remove(s, ls);
        lemma_sorted_keys_remove(t, lt);
        assert(s.remove(ls) =~= s.drop_last());
        assert(t.remove(lt) =~= t.drop_last());
        lemma_sorted_pairs_canonical(s.drop_last(), t.drop_last());
        assert forall|k: int| 0 <= k < s.len() implies (#[trigger] s[k]).0@ == t[k].0@ && s[k].1@
            == t[k].1@ by {
            if k < ls {
                assert(s.drop_last()[k] == s[k]);
                assert(t.drop_last()[k] == t[k]);
            }
        }
    }
}

/// Setting a key twice leaves the value that was set last, and nothing
/// else of the first.
pub proof fn lemma_insert_twice(
    m: Map<Seq<char>, Seq<char>>,
    key: Seq<char>,
    first: Seq<char>,
    last: Seq<char>,
)
    ensures
        m.insert(key, first).insert(key, last) == m.insert(key, last),
        m.insert(key, first).insert(key, last)[key] == last,
{
    assert(m.insert(key, first).insert(key, last) =~= m.insert(key, last));
}

/// A boolean goes on the wire as the one character `1` or `0`, never as
/// a word.
pub proof fn lemma_flag_text(value: bool)
    ensures
        flag_text(value) == "1"@ || flag_text(value) == "0"@,
        flag_text(value) == "1"@ <==> value,
        flag_text(value).len() == 1,
        flag_text(value) != "true"@,
        flag_text(value) != "false"@,
{
    reveal_strlit("1");
    reveal_strlit("0");
    reveal_strlit("true");
    reveal_strlit("false");
    assert("1"@ =~= seq!['1']);
    assert("0"@ =~= seq!['0']);
    assert(seq!['1'][0] != seq!['0'][0]);
}

/// Named text parameters, each key at most once, kept in ascending order
/// of the keys.
///
/// Its view is the map from each key to its current value.
#[derive(Debug)]
pub struct PveParams {
    entries: Vec<(String, String)>,
}

impl View for PveParams {
    type V = Map<Seq<char>, Seq<char>>;

    closed spec fn view(&self) -> Map<Seq<char>, Seq<char>> {
        pairs_map(self.entries@)
    }
}

impl PveParams {
    #[verifier::type_invariant]
    spec fn well_formed(self) -> bool {
        sorted_keys(self.entries@)
    }

    /// The empty parameter map.
    pub fn new() -> (r: Self)
        ensures
            r@ == Map::<Seq<char>, Seq<char>>::empty(),
    {
        PveParams { entries: Vec::new() }
    }

    /// Index of the pair that carries `key`, or the number of pairs.
    fn find(&self, key: &str) -> (i: usize)
        ensures
            i <= self.entries.len(),
            i < self.entries.len() ==> self.entries@[i as int].0@ == key@,
            i == self.entries.len() ==> !self@.contains_key(key@),
    {
        let mut i: usize = 0;
        while i < self.entries.len()
            invariant
                i <= self.entries.len(),
                forall|k: int| 0 <= k < i ==> (#[trigger] self.entries@[k]).0@ != key@,
            decreases self.entries.len() - i,
        {
            if same_text(self.entries[i].0.as_str(), key) {
                return i;
            }
            i = i + 1;
        }
        proof {
            lemma_pairs_map_dom(self.entries@, key@);
        }
        i
    }

    /// Sets `key` to `value`, replacing any value it had.
    pub fn insert(&mut self, key: &str, value: &str)
        ensures
            final(self)@ == old(self)@.insert(key@, value@),
    {
        proof {
            use_type_invariant(&*self);
        }
        let mut entries: Vec<(String, String)> = Vec::new();
        core::mem::swap(&mut self.entries, &mut entries);
        let mut i: usize = 0;
        while i < entries.len() && text_less(entries[i].0.as_str(), key)
            invariant
                i <= entries.len(),
                forall|k: int| 0 <= k < i ==> text_lt((#[trigger] entries@[k]).0@, key@),
            decreases entries.len() - i,
        {
            i = i + 1;
        }
        let ghost before = entries@;
        if i < entries.len() && same_text(entries[i].0.as_str(), key) {
            proof {
                lemma_sorted_keys_distinct(before);
                lemma_sorted_keys_remove(before, i as int);
                lemma_pairs_map_remove(before, i as int);
            }
            entries.remove(i);
            proof {
                assert forall|k: int| i <= k < entries@.len() implies text_lt(
                    key@,
                    (#[trigger] entries@[k]).0@,
                ) by {
                    assert(entries@[k] == before[k + 1]);
                }
                assert forall|k: int| 0 <= k < i implies text_lt(
                    (#[trigger] entries@[k]).0@,
                    key@,
                ) by {
                    assert(entries@[k] == before[k]);
                }
            }
        } else {
            proof {
                assert forall|k: int| i <= k < entries@.len() implies text_lt(
                    key@,
                    (#[trigger] entries@[k]).0@,
                ) by {
                    lemma_text_lt_total(key@, before[i as int].0@);
                    if k > i {
                        lemma_text_lt_transitive(key@, before[i as int].0@, before[k].0@);
                    }
                }
            }
        }
        let pair = (String::from_str(key), String::from_str(value));
        proof {
            lemma_sorted_keys_insert(entries@, i as int, pair);
            assert(pairs_map(entries@.insert(i as int, pair)) =~= old(self)@.insert(key@, value@));
        }
        entries.insert(i, pair);
        core::mem::swap(&mut self.entries, &mut entries);
    }

    /// This map with `key` set to `value`.
    pub fn with(self, key: &str, value: &str) -> (r: Self)
        ensures
            r@ == self@.insert(key@, value@),
    {
        let mut out = self;
        out.insert(key, value);
        out
    }

    /// Sets `key` where a value is given; does nothing for `None`.
    pub fn insert_opt(&mut self, key: &str, value: Option<&str>)
        ensures
            final(self)@ == put_opt(old(self)@, key@, crate::text::opt_str_view(value)),
    {
        match value {
            Some(v) => self.insert(key, v),
            None => {},
        }
    }

    /// Sets `key` to `1` for `true` and to `0` for `false`.
    pub fn insert_bool(&mut self, key: &str, value: bool)
        ensures
            final(self)@ == put_flag(old(self)@, key@, value),
    {
        proof {
            reveal_strlit("1");
            reveal_strlit("0");
        }
        let text = if value {
            "1"
        } else {
            "0"
        };
        assert(text@ =~= flag_text(value));
        self.insert(key, text);
    }

    /// This map with `key` set to the wire text of `value`.
    pub fn with_bool(self, key: &str, value: bool) -> (r: Self)
        ensures
            r@ == put_flag(self@, key@, value),
    {
        let mut out = self;
        out.insert_bool(key, value);
        out
    }

    /// Sets `key` to the decimal text of `value`.
    pub fn insert_number(&mut self, key: &str, value: u64)
        ensures
            final(self)@ == old(self)@.insert(key@, decimal(value as nat)),
    {
        let text = decimal_text(value);
        self.insert(key, text.as_str());
    }

    /// Sets `key` to the decimal text of a number that is given.
    pub fn insert_opt_u32(&mut self, key: &str, value: Option<u32>)
        ensures
            final(self)@ == put_opt(old(self)@, key@, opt_decimal_u32(value)),
    {
        match value {
            Some(n) => self.insert_number(key, n as u64),
            None => {},
        }
    }

    /// Sets `key` to the decimal text of a number that is given.
    pub fn insert_opt_u64(&mut self, key: &str, value: Option<u64>)
        ensures
            final(self)@ == put_opt(old(self)@, key@, opt_decimal_u64(value)),
    {
        match value {
            Some(n) => self.insert_number(key, n),
            None => {},
        }
    }

    /// Sets `key` to the wire text of a boolean that is given.
    pub fn insert_opt_bool(&mut self, key: &str, value: Option<bool>)
        ensures
            final(self)@ == put_opt(old(self)@, key@, opt_flag(value)),
    {
        match value {
            Some(b) => self.insert_bool(key, b),
            None => {},
        }
    }

    /// Whether the map holds no key.
    pub fn is_empty(&self) -> (r: bool)
        ensures
            r == (self@ == Map::<Seq<char>, Seq<char>>::empty()),
    {
        proof {
            if self.entries@.len() > 0 {
                assert(pairs_map(self.entries@).contains_key(self.entries@.last().0@));
            }
        }
        self.entries.len() == 0
    }

    /// Copies every pair of `other` into this map; `other` wins where both
    /// hold a key.
    pub fn extend(&mut self, other: &PveParams)
        ensures
            final(self)@ == old(self)@.union_prefer_right(other@),
    {
        let mut i: usize = 0;
        while i < other.entries.len()
            invariant
                i <= other.entries.len(),
                self@ == old(self)@.union_prefer_right(pairs_map(other.entries@.take(i as int))),
            decreases other.entries.len() - i,
        {
            proof {
                assert(other.entries@.take(i + 1).drop_last() =~= other.entries@.take(i as int));
            }
            let ghost before = self@;
            self.insert(other.entries[i].0.as_str(), other.entries[i].1.as_str());
            proof {
                let k = other.entries@[i as int].0@;
                let v = other.entries@[i as int].1@;
                let part = pairs_map(other.entries@.take(i as int));
                assert(pairs_map(other.entries@.take(i + 1)) == part.insert(k, v));
                assert(before.insert(k, v) =~= old(self)@.union_prefer_right(part.insert(k, v)));
            }
            i = i + 1;
        }
        proof {
            assert(other.entries@.take(other.entries@.len() as int) =~= other.entries@);
        }
    }

    /// Takes `key` out of the map and returns the value it had.
    pub fn remove(&mut self, key: &str) -> (r: Option<String>)
        ensures
            final(self)@ == old(self)@.remove(key@),
            crate::text::opt_view(r) == (if old(self)@.contains_key(key@) {
                Some(old(self)@[key@])
            } else {
                None
            }),
    {
        let i = self.find(key);
        proof {
            use_type_invariant(&*self);
            lemma_sorted_keys_distinct(self.entries@);
        }
        if i < self.entries.len() {
            proof {
                lemma_sorted_keys_remove(self.entries@, i as int);
                lemma_pairs_map_remove(self.entries@, i as int);
                lemma_pairs_map_at(self.entries@, i as int);
            }
            let mut entries: Vec<(String, String)> = Vec::new();
            core::mem::swap(&mut self.entries, &mut entries);
            let pair = entries.remove(i);
            core::mem::swap(&mut self.entries, &mut entries);
            Some(pair.1)
        } else {
            proof {
                assert(old(self)@.remove(key@) =~= old(self)@);
            }
            None
        }
    }

    /// The value of `key`, if the map holds it.
    pub fn get(&self, key: &str) -> (r: Option<&str>)
        ensures
            crate::text::opt_str_view(r) == (if self@.contains_key(key@) {
                Some(self@[key@])
            } else {
                None
            }),
    {
        let i = self.find(key);
        proof {
            use_type_invariant(self);
            lemma_sorted_keys_distinct(self.entries@);
        }
        if i < self.entries.len() {
            proof {
                lemma_pairs_map_at(self.entries@, i as int);
            }
            Some(self.entries[i].1.as_str())
        } else {
            None
        }
    }

    /// The pairs of the map in ascending order of their keys, each key once.
    pub fn into_inner(self) -> (r: Vec<(String, String)>)
        ensures
            sorted_keys(r@),
            pairs_map(r@) == self@,
    {
        proof {
            use_type_invariant(&self);
        }
        self.entries
    }

    /// The map that a list of pairs stands for; where a key occurs more
    /// than once, its last pair wins.
    pub fn from_pairs(pairs: &Vec<(String, String)>) -> (r: Self)
        ensures
            r@ == pairs_map(pairs@),
    {
        let mut out = PveParams::new();
        let mut i: usize = 0;
        while i < pairs.len()
            invariant
                i <= pairs.len(),
                out@ == pairs_map(pairs@.take(i as int)),
            decreases pairs.len() - i,
        {
            proof {
                assert(pairs@.take(i + 1).drop_last() =~= pairs@.take(i as int));
            }
            out.insert(pairs[i].0.as_str(), pairs[i].1.as_str());
            i = i + 1;
        }
        proof {
            assert(pairs@.take(pairs@.len() as int) =~= pairs@);
        }
        out
    }
}

impl Clone for PveParams {
    fn clone(&self) -> (r: Self)
        ensures
            r@ == self@,
    {
        let mut out = PveParams::new();
        out.extend(self);
        proof {
            assert(out@ =~= self@);
        }
        out
    }
}

impl Default for PveParams {
    fn default() -> (r: Self)
        ensures
            r@ == Map::<Seq<char>, Seq<char>>::empty(),
    {
        PveParams::new()
    }
}

} // verus!
