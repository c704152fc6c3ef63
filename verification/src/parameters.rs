//! Parameter strings of the form `key=value,flag,key2 = value2` and the map
//! they parse into.
use vstd::prelude::*;
use crate::text::{
    chars_of, find_char, is_whitespace_char, same_chars, split_seq, split_spans, str_eq,
    string_from_chars, lemma_split_joined, lemma_split_pieces_without_sep,
    lemma_split_without_sep, lemma_trim_absent, lemma_trim_fixed,
    lemma_trim_idempotent, lemma_trimmed_ends, trim_bounds, trim_seq,
};

verus! {

broadcast use vstd::seq::group_seq_axioms;

/// An entry of a parameter map: its key and its value, as characters.
pub type EntryView = (Seq<char>, Seq<char>);

/// The index of the first entry of `es` whose key is `k`, or -1.
pub open spec fn key_index(es: Seq<EntryView>, k: Seq<char>) -> int
    decreases es.len(),
{
    if es.len() == 0 {
        -1
    } else {
        let r = key_index(es.drop_last(), k);
        if r >= 0 {
            r
        } else if es.last().0 == k {
            es.len() - 1
        } else {
            -1
        }
    }
}

/// The value that `es` gives to the key `k`.
pub open spec fn lookup(es: Seq<EntryView>, k: Seq<char>) -> Option<Seq<char>> {
    let i = key_index(es, k);
    if i >= 0 {
        Some(es[i].1)
    } else {
        None
    }
}

/// `es` with `k` bound to `v`: the entry of `k` is updated in place, or a new
/// entry is appended.
pub open spec fn insert_entry(es: Seq<EntryView>, k: Seq<char>, v: Seq<char>) -> Seq<EntryView> {
    let i = key_index(es, k);
    if i >= 0 {
        es.update(i, (k, v))
    } else {
        es.push((k, v))
    }
}

/// No two entries share a key.
pub open spec fn keys_distinct(es: Seq<EntryView>) -> bool {
    forall|i: int, j: int| 0 <= i < j < es.len() ==> (#[trigger] es[i]).0 != (#[trigger] es[j]).0
}

pub open spec fn true_chars() -> Seq<char> {
    seq!['t', 'r', 'u', 'e']
}

/// The entry that one comma-separated piece contributes: `key=value` with both
/// sides trimmed (split at the first `=`, dropped when the key is empty), or a
/// bare flag that stands for `flag=true`; blank pieces contribute nothing.
pub open spec fn piece_entry(p: Seq<char>) -> Option<EntryView> {
    let t = trim_seq(p);
    if t.len() == 0 {
        None
    } else {
        match t.index_of_first('=') {
            Some(i) => {
                let k = trim_seq(t.subrange(0, i));
                if k.len() == 0 {
                    None
                } else {
                    Some((k, trim_seq(t.subrange(i + 1, t.len() as int))))
                }
            },
            None => Some((t, true_chars())),
        }
    }
}

/// The entries that a sequence of pieces yields, later pieces overriding the
/// values of earlier ones with the same key.
pub open spec fn entries_of_pieces(ps: Seq<Seq<char>>) -> Seq<EntryView>
    decreases ps.len(),
{
    if ps.len() == 0 {
        Seq::empty()
    } else {
        let es = entries_of_pieces(ps.drop_last());
        match piece_entry(ps.last()) {
            Some(e) => insert_entry(es, e.0, e.1),
            None => es,
        }
    }
}

/// The entries that `parse_parameters` gives for the text `s`.
pub open spec fn parse_parameters_spec(s: Seq<char>) -> Seq<EntryView> {
    entries_of_pieces(split_seq(s, ','))
}

proof fn lemma_key_index_bounds(es: Seq<EntryView>, k: Seq<char>)
    ensures
        -1 <= key_index(es, k) < es.len(),
        key_index(es, k) >= 0 ==> es[key_index(es, k)].0 == k,
        key_index(es, k) < 0 ==> forall|j: int| 0 <= j < es.len() ==> (#[trigger] es[j]).0 != k,
        key_index(es, k) >= 0 ==> forall|j: int|
            0 <= j < key_index(es, k) ==> (#[trigger] es[j]).0 != k,
    decreases es.len(),
{
    if es.len() > 0 {
        lemma_key_index_bounds(es.drop_last(), k);
        assert(forall|j: int| 0 <= j < es.len() - 1 ==> es.drop_last()[j] == #[trigger] es[j]);
    }
}

/// Binding a key that no entry has appends the binding.
pub proof fn lemma_insert_new_key(es: Seq<EntryView>, k: Seq<char>, v: Seq<char>)
    requires
        forall|j: int| 0 <= j < es.len() ==> (#[trigger] es[j]).0 != k,
    ensures
        insert_entry(es, k, v) == es.push((k, v)),
{
    lemma_key_index_bounds(es, k);
    if key_index(es, k) >= 0 {
        assert(es[key_index(es, k)].0 != k);
    }
}

proof fn lemma_key_index_unique(es: Seq<EntryView>, k: Seq<char>, i: int)
    requires
        0 <= i < es.len(),
        es[i].0 == k,
        forall|j: int| 0 <= j < i ==> (#[trigger] es[j]).0 != k,
    ensures
        key_index(es, k) == i,
{
    lemma_key_index_bounds(es, k);
    let r = key_index(es, k);
    if r < 0 {
        assert(es[i].0 != k);
    } else if r < i {
        assert(es[r].0 != k);
    } else if r > i {
        assert(es[i].0 != k);
    }
}

proof fn lemma_insert_keeps_distinct(es: Seq<EntryView>, k: Seq<char>, v: Seq<char>)
    requires
        keys_distinct(es),
    ensures
        keys_distinct(insert_entry(es, k, v)),
        lookup(insert_entry(es, k, v), k) == Some(v),
{
    lemma_key_index_bounds(es, k);
    let r = insert_entry(es, k, v);
    let i = key_index(es, k);
    if i >= 0 {
        assert forall|a: int, b: int| 0 <= a < b < r.len() implies (#[trigger] r[a]).0 != (
        #[trigger] r[b]).0 by {
            if a == i {
                assert(es[i].0 == k);
                assert(es[b].0 != es[i].0);
            } else if b == i {
                assert(es[a].0 != es[i].0);
            } else {
                assert(es[a].0 != es[b].0);
            }
        }
        lemma_key_index_bounds(r, k);
        lemma_key_index_unique(r, k, i);
    } else {
        assert forall|a: int, b: int| 0 <= a < b < r.len() implies (#[trigger] r[a]).0 != (
        #[trigger] r[b]).0 by {
            if b == es.len() {
                assert(es[a].0 != k);
            } else {
                assert(es[a].0 != es[b].0);
            }
        }
        lemma_key_index_unique(r, k, es.len() as int);
    }
}

/// Whether a key is non-empty and has no surrounding whitespace.
pub open spec fn key_well_formed(k: Seq<char>) -> bool {
    k.len() > 0 && trim_seq(k) == k
}

/// The entry a piece gives has a well-formed key.
proof fn lemma_piece_key(p: Seq<char>)
    ensures
        piece_entry(p) matches Some(e) ==> key_well_formed(e.0),
{
    let t = trim_seq(p);
    lemma_trim_idempotent(p);
    if t.len() > 0 {
        if let Some(i) = t.index_of_first('=') {
            lemma_trim_idempotent(t.subrange(0, i));
        }
    }
}

/// Every key that parsing a text gives is non-empty and has no surrounding
/// whitespace.
pub proof fn law_parsed_keys_well_formed(s: Seq<char>)
    ensures
        forall|i: int|
            0 <= i < parse_parameters_spec(s).len() ==> key_well_formed(
                (#[trigger] parse_parameters_spec(s)[i]).0,
            ),
{
    lemma_entries_keys(split_seq(s, ','));
}

proof fn lemma_entries_keys(ps: Seq<Seq<char>>)
    ensures
        forall|i: int|
            0 <= i < entries_of_pieces(ps).len() ==> key_well_formed(
                (#[trigger] entries_of_pieces(ps)[i]).0,
            ),
    decreases ps.len(),
{
    if ps.len() > 0 {
        let es = entries_of_pieces(ps.drop_last());
        lemma_entries_keys(ps.drop_last());
        lemma_piece_key(ps.last());
        if let Some(e) = piece_entry(ps.last()) {
            let r = insert_entry(es, e.0, e.1);
            let idx = key_index(es, e.0);
            lemma_key_index_bounds(es, e.0);
            assert forall|i: int| 0 <= i < r.len() implies key_well_formed((#[trigger] r[i]).0) by {
                if i == idx || i == es.len() {
                    assert(r[i].0 == e.0);
                } else {
                    assert(r[i] == es[i]);
                }
            }
        }
    }
}

/// Whether `c` occurs nowhere in `s`.
pub open spec fn lacks(s: Seq<char>, c: char) -> bool {
    forall|i: int| 0 <= i < s.len() ==> s[i] != c
}

/// Whether an entry written as `key=value` reads back as itself: its key is
/// well formed and holds neither `=` nor `,`, its value is trimmed and holds
/// no `,`.
pub open spec fn entry_rejoinable(e: EntryView) -> bool {
    &&& key_well_formed(e.0)
    &&& lacks(e.0, '=')
    &&& lacks(e.0, ',')
    &&& trim_seq(e.1) == e.1
    &&& lacks(e.1, ',')
}

/// An entry written as `key=value` is one piece, which gives the entry back.
pub proof fn lemma_entry_text_reads_back(e: EntryView)
    requires
        entry_rejoinable(e),
    ensures
        piece_entry(e.0 + "="@ + e.1) == Some(e),
        lacks(e.0 + "="@ + e.1, ','),
{
    reveal_strlit("=");
    let k = e.0;
    let v = e.1;
    let p = k + "="@ + v;
    lemma_trimmed_ends(k);
    if v.len() > 0 {
        lemma_trimmed_ends(v);
    }
    assert(p[0] == k[0]);
    assert(!is_whitespace_char(p.last()));
    lemma_trim_fixed(p);
    p.index_of_first_ensures('=');
    assert(p[k.len() as int] == '=');
    let i = p.index_of_first('=').unwrap();
    if i < k.len() {
        assert(p[i] == k[i]);
    }
    assert(i == k.len());
    assert(p.subrange(0, i) =~= k);
    assert(p.subrange(i + 1, p.len() as int) =~= v);
    assert forall|j: int| 0 <= j < p.len() implies p[j] != ',' by {
        if j < k.len() {
            assert(p[j] == k[j]);
        } else if j > k.len() {
            assert(p[j] == v[j - k.len() - 1]);
        }
    }
}

/// The entry a piece without `,` gives can be written back and read again.
proof fn lemma_piece_rejoinable(p: Seq<char>)
    requires
        lacks(p, ','),
    ensures
        piece_entry(p) matches Some(e) ==> entry_rejoinable(e),
{
    let t = trim_seq(p);
    lemma_piece_key(p);
    lemma_trim_absent(p, ',');
    if t.len() > 0 {
        t.index_of_first_ensures('=');
        match t.index_of_first('=') {
            Some(i) => {
                let a = t.subrange(0, i);
                let b = t.subrange(i + 1, t.len() as int);
                assert(lacks(a, '='));
                assert(lacks(a, ','));
                assert(lacks(b, ','));
                lemma_trim_absent(a, '=');
                lemma_trim_absent(a, ',');
                lemma_trim_absent(b, ',');
                lemma_trim_idempotent(b);
            },
            None => {
                assert(lacks(t, '=')) by {
                    assert forall|j: int| 0 <= j < t.len() implies t[j] != '=' by {
                        if t[j] == '=' {
                            assert(t.contains('='));
                        }
                    }
                }
                lemma_trim_fixed(true_chars());
            },
        }
    }
}

proof fn lemma_entries_rejoinable(ps: Seq<Seq<char>>)
    requires
        forall|i: int| 0 <= i < ps.len() ==> lacks(#[trigger] ps[i], ','),
    ensures
        keys_distinct(entries_of_pieces(ps)),
        forall|i: int|
            0 <= i < entries_of_pieces(ps).len() ==> entry_rejoinable(
                #[trigger] entries_of_pieces(ps)[i],
            ),
    decreases ps.len(),
{
    if ps.len() > 0 {
        let es = entries_of_pieces(ps.drop_last());
        assert(forall|i: int| 0 <= i < ps.len() - 1 ==> ps.drop_last()[i] == ps[i]);
        lemma_entries_rejoinable(ps.drop_last());
        assert(lacks(ps.last(), ','));
        lemma_piece_rejoinable(ps.last());
        if let Some(e) = piece_entry(ps.last()) {
            let r = insert_entry(es, e.0, e.1);
            lemma_insert_keeps_distinct(es, e.0, e.1);
            let idx = key_index(es, e.0);
            lemma_key_index_bounds(es, e.0);
            assert forall|i: int| 0 <= i < r.len() implies entry_rejoinable(#[trigger] r[i]) by {
                if i == idx || i == es.len() {
                    assert(r[i] == e);
                } else {
                    assert(r[i] == es[i]);
                }
            }
        }
    }
}

/// The entries that parsing gives have distinct keys, and each, written back
/// as `key=value`, reads back as itself.
pub proof fn lemma_parsed_entries_rejoinable(s: Seq<char>)
    ensures
        keys_distinct(parse_parameters_spec(s)),
        forall|i: int|
            0 <= i < parse_parameters_spec(s).len() ==> entry_rejoinable(
                #[trigger] parse_parameters_spec(s)[i],
            ),
{
    let ps = split_seq(s, ',');
    lemma_split_pieces_without_sep(s, ',');
    assert forall|i: int| 0 <= i < ps.len() implies lacks(#[trigger] ps[i], ',') by {
        assert forall|j: int| 0 <= j < ps[i].len() implies ps[i][j] != ',' by {
            assert(split_seq(s, ',')[i][j] != ',');
        }
    }
    lemma_entries_rejoinable(ps);
}

/// With distinct keys, the value of `k` is that of the last entry when its key
/// is `k`, and otherwise the value the earlier entries give.
pub proof fn lemma_lookup_last(es: Seq<EntryView>, k: Seq<char>)
    requires
        keys_distinct(es),
        es.len() > 0,
    ensures
        lookup(es, k) == if es.last().0 == k {
            Some(es.last().1)
        } else {
            lookup(es.drop_last(), k)
        },
{
    let es1 = es.drop_last();
    lemma_key_index_bounds(es1, k);
    let r = key_index(es1, k);
    if r >= 0 {
        assert(es[r] == es1[r]);
        assert(es[r].0 != es[es.len() - 1].0);
    }
}

/// The entries without their last one still have distinct keys.
pub proof fn lemma_distinct_drop_last(es: Seq<EntryView>)
    requires
        keys_distinct(es),
        es.len() > 0,
    ensures
        keys_distinct(es.drop_last()),
{
    assert forall|i: int, j: int| 0 <= i < j < es.drop_last().len() implies (
    #[trigger] es.drop_last()[i]).0 != (#[trigger] es.drop_last()[j]).0 by {
        assert(es.drop_last()[i] == es[i]);
        assert(es.drop_last()[j] == es[j]);
    }
}

/// Binding `k` leaves the value of every other key as it was.
proof fn lemma_insert_keeps_others(es: Seq<EntryView>, k: Seq<char>, v: Seq<char>, x: Seq<char>)
    requires
        keys_distinct(es),
        x != k,
    ensures
        lookup(insert_entry(es, k, v), x) == lookup(es, x),
{
    let r = insert_entry(es, k, v);
    lemma_insert_keeps_distinct(es, k, v);
    lemma_key_index_bounds(es, x);
    lemma_key_index_bounds(es, k);
    lemma_key_index_bounds(r, x);
    let j = key_index(es, x);
    let idx = key_index(es, k);
    if j >= 0 {
        assert(r[j] == es[j]);
        assert forall|i: int| 0 <= i < j implies (#[trigger] r[i]).0 != x by {
            if i == idx {
                assert(r[i].0 == k);
            } else {
                assert(r[i] == es[i]);
            }
        }
        lemma_key_index_unique(r, x, j);
    } else {
        let q = key_index(r, x);
        if q >= 0 {
            if q == idx || q == es.len() {
                assert(r[q].0 == k);
            } else {
                assert(r[q] == es[q]);
            }
        }
    }
}

/// A later value of a key replaces an earlier one: after whatever text `p`,
/// a last piece `k=v` gives `k` the value `v`, and every other key keeps the
/// value `p` gives it.
pub proof fn law_later_value_wins(p: Seq<char>, k: Seq<char>, v: Seq<char>, x: Seq<char>)
    requires
        key_well_formed(k),
        lacks(k, '='),
        lacks(k, ','),
        trim_seq(v) == v,
        lacks(v, ','),
    ensures
        lookup(parse_parameters_spec(p + ","@ + k + "="@ + v), k) == Some(v),
        x != k ==> lookup(parse_parameters_spec(p + ","@ + k + "="@ + v), x) == lookup(
            parse_parameters_spec(p),
            x,
        ),
{
    reveal_strlit(",");
    let kv = k + "="@ + v;
    lemma_entry_text_reads_back((k, v));
    lemma_split_without_sep(kv, ',');
    assert(p + ","@ + k + "="@ + v =~= p + seq![','] + kv);
    lemma_split_joined(p, kv, ',');
    let ps = split_seq(p, ',') + seq![kv];
    assert(ps.drop_last() =~= split_seq(p, ','));
    assert(ps.last() == kv);
    let es = parse_parameters_spec(p);
    lemma_parsed_entries_rejoinable(p);
    assert(parse_parameters_spec(p + ","@ + k + "="@ + v) == insert_entry(es, k, v));
    lemma_insert_keeps_distinct(es, k, v);
    if x != k {
        lemma_insert_keeps_others(es, k, v, x);
    }
}

/// A map from parameter names to their values that keeps the order in which
/// the names were first inserted. The entries are a vector with distinct keys:
/// over a `HashMap<String, String>` Verus accepts `insert` but proves nothing
/// of the contents, not even the length after one insert, and a hash map walks
/// its entries in an order that no contract can name.
#[derive(Debug)]
pub struct ParameterMap {
    entries: Vec<(String, String)>,
}

impl View for ParameterMap {
    type V = Seq<EntryView>;

    closed spec fn view(&self) -> Seq<EntryView> {
        Seq::new(self.entries.len() as nat, |i: int| (self.entries[i].0@, self.entries[i].1@))
    }
}

impl ParameterMap {
    /// An empty map.
    pub fn new() -> (r: Self)
        ensures
            r@ == Seq::<EntryView>::empty(),
    {
        ParameterMap { entries: Vec::new() }
    }

    /// The number of entries.
    pub fn len(&self) -> (r: usize)
        ensures
            r == self@.len(),
    {
        self.entries.len()
    }

    /// Whether the map has no entry.
    pub fn is_empty(&self) -> (r: bool)
        ensures
            r == (self@.len() == 0),
    {
        self.entries.len() == 0
    }

    /// The key and value of the `i`-th entry, in insertion order.
    pub fn entry(&self, i: usize) -> (r: (&String, &String))
        requires
            i < self@.len(),
        ensures
            r.0@ == self@[i as int].0,
            r.1@ == self@[i as int].1,
    {
        (&self.entries[i].0, &self.entries[i].1)
    }

    /// The position of the entry whose key is `key`.
    pub fn position(&self, key: &str) -> (r: Option<usize>)
        ensures
            match r {
                Some(i) => i == key_index(self@, key@) && i < self@.len(),
                None => key_index(self@, key@) < 0,
            },
    {
        proof {
            lemma_key_index_bounds(self@, key@);
        }
        let mut i: usize = 0;
        while i < self.entries.len()
            invariant
                i <= self.entries.len(),
                forall|j: int| 0 <= j < i ==> (#[trigger] self@[j]).0 != key@,
            decreases self.entries.len() - i,
        {
            if str_eq(self.entries[i].0.as_str(), key) {
                proof {
                    lemma_key_index_unique(self@, key@, i as int);
                }
                return Some(i);
            }
            i = i + 1;
        }
        proof {
            lemma_key_index_bounds(self@, key@);
            if key_index(self@, key@) >= 0 {
                assert(self@[key_index(self@, key@)].0 != key@);
            }
        }
        None
    }

    /// The value of `key`.
    pub fn get(&self, key: &str) -> (r: Option<&String>)
        ensures
            match r {
                Some(v) => lookup(self@, key@) == Some(v@),
                None => lookup(self@, key@) is None,
            },
    {
        match self.position(key) {
            Some(i) => Some(&self.entries[i].1),
            None => None,
        }
    }

    /// Whether `key` has a value.
    pub fn contains_key(&self, key: &str) -> (r: bool)
        ensures
            r == (lookup(self@, key@) is Some),
    {
        self.position(key).is_some()
    }

    /// Binds `key` to `value`, replacing an earlier value of `key` in place.
    pub fn insert(&mut self, key: String, value: String)
        ensures
            final(self)@ == insert_entry(old(self)@, key@, value@),
    {
        match self.position(key.as_str()) {
            Some(i) => {
                let ghost before = self@;
                self.entries.set(i, (key, value));
                assert(self@ =~= insert_entry(before, key@, value@));
            },
            None => {
                let ghost before = self@;
                self.entries.push((key, value));
                assert(self@ =~= insert_entry(before, key@, value@));
            },
        }
    }
}

impl Clone for ParameterMap {
    fn clone(&self) -> (r: Self)
        ensures
            r@ == self@,
    {
        let mut entries: Vec<(String, String)> = Vec::new();
        let mut i: usize = 0;
        while i < self.entries.len()
            invariant
                i <= self.entries.len(),
                entries.len() == i,
                forall|j: int|
                    0 <= j < i ==> (#[trigger] entries[j]).0@ == self.entries[j].0@
                        && entries[j].1@ == self.entries[j].1@,
            decreases self.entries.len() - i,
        {
            entries.push((self.entries[i].0.clone(), self.entries[i].1.clone()));
            i = i + 1;
        }
        let r = ParameterMap { entries };
        assert(r@ =~= self@);
        r
    }
}

/// Whether `a` and `b` bind the same keys to the same values: as many
/// entries, and every key of `a` has its value in `b`.
pub open spec fn same_bindings(a: Seq<EntryView>, b: Seq<EntryView>) -> bool {
    &&& a.len() == b.len()
    &&& forall|i: int| 0 <= i < a.len() ==> lookup(b, (#[trigger] a[i]).0) == Some(a[i].1)
}

impl PartialEq for ParameterMap {
    fn eq(&self, other: &Self) -> (r: bool) {
        if self.entries.len() != other.entries.len() {
            return false;
        }
        let mut i: usize = 0;
        while i < self.entries.len()
            invariant
                i <= self.entries.len(),
                self@.len() == other@.len(),
                forall|j: int| 0 <= j < i ==> lookup(other@, (#[trigger] self@[j]).0) == Some(self@[j].1),
            decreases self.entries.len() - i,
        {
            let key = self.entries[i].0.as_str();
            let value = self.entries[i].1.as_str();
            assert(key@ == self@[i as int].0);
            match other.get(key) {
                Some(v) => {
                    if !str_eq(v.as_str(), value) {
                        return false;
                    }
                },
                None => {
                    return false;
                },
            }
            i = i + 1;
        }
        true
    }
}

impl vstd::std_specs::cmp::PartialEqSpecImpl for ParameterMap {
    open spec fn obeys_eq_spec() -> bool {
        true
    }

    open spec fn eq_spec(&self, other: &Self) -> bool {
        same_bindings(self@, other@)
    }
}

/// Parses `key=value` pairs separated by commas. Keys and values are trimmed;
/// a piece without `=` is a flag with the value `true`; blank pieces and pieces
/// with an empty key are skipped; a later value of a key replaces an earlier one.
pub fn parse_parameters(parameters: &str) -> (r: ParameterMap)
    ensures
        r@ == parse_parameters_spec(parameters@),
        keys_distinct(r@),
{
    let v = chars_of(parameters);
    let n = v.len();
    let spans = split_spans(&v, 0, n, ',');
    let ghost pieces = split_seq(v@.subrange(0, n as int), ',');
    assert(v@.subrange(0, n as int) =~= parameters@);
    let mut result = ParameterMap::new();
    let mut s: usize = 0;
    while s < spans.len()
        invariant
            s <= spans.len(),
            spans.len() == pieces.len(),
            n == v.len(),
            pieces == split_seq(parameters@, ','),
            forall|k: int|
                0 <= k < spans.len() ==> (#[trigger] spans[k]).0 <= spans[k].1 <= n
                    && v@.subrange(spans[k].0 as int, spans[k].1 as int) == pieces[k],
            result@ == entries_of_pieces(pieces.subrange(0, s as int)),
            keys_distinct(result@),
        decreases spans.len() - s,
    {
        let (lo, hi) = spans[s];
        assert(pieces.subrange(0, s + 1).drop_last() =~= pieces.subrange(0, s as int));
        assert(pieces.subrange(0, s + 1).last() == pieces[s as int]);
        let ghost p = pieces[s as int];
        let (a, b) = trim_bounds(&v, lo, hi);
        let ghost t = v@.subrange(a as int, b as int);
        assert(t == trim_seq(p));
        if a < b {
            let found = find_char(&v, a, b, '=');
            proof {
                t.index_of_first_ensures('=');
            }
            match found {
                Some(e) => {
                    assert(t.index_of_first('=') == Some((e - a) as int));
                    assert(t.subrange(0, e - a) =~= v@.subrange(a as int, e as int));
                    assert(t.subrange(e - a + 1, t.len() as int) =~= v@.subrange(e + 1, b as int));
                    let (k0, k1) = trim_bounds(&v, a, e);
                    let (w0, w1) = trim_bounds(&v, e + 1, b);
                    if k0 < k1 {
                        let key = string_from_chars(&v, k0, k1);
                        let value = string_from_chars(&v, w0, w1);
                        assert(piece_entry(p) == Some((key@, value@)));
                        proof {
                            lemma_insert_keeps_distinct(result@, key@, value@);
                        }
                        result.insert(key, value);
                    } else {
                        assert(piece_entry(p) is None);
                    }
                },
                None => {
                    assert(t.index_of_first('=') is None);
                    let key = string_from_chars(&v, a, b);
                    let value = "true".to_string();
                    proof {
                        vstd::string::to_string_from_display_ensures_for_str("true", value);
                        reveal_strlit("true");
                        assert(value@ =~= true_chars());
                        assert(piece_entry(p) == Some((key@, value@)));
                        lemma_insert_keeps_distinct(result@, key@, value@);
                    }
                    result.insert(key, value);
                },
            }
        } else {
            assert(piece_entry(p) is None);
        }
        s = s + 1;
    }
    assert(pieces.subrange(0, spans.len() as int) =~= pieces);
    result
}

} // verus!
