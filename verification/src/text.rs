//! Character-level text handling used by the parameter parsers: whitespace
//! trimming, splitting on a separator, decimal and boolean parsing, and the
//! decimal rendering of integers.
use vstd::prelude::*;
use vstd::string::StringExecFns;

verus! {

broadcast use vstd::seq::group_seq_axioms;

/// The Unicode `White_Space` property: the characters that `char::is_whitespace`
/// and `str::trim` treat as whitespace.
pub open spec fn is_whitespace_char(c: char) -> bool {
    let n = c as int;
    ||| 0x9 <= n <= 0xd
    ||| n == 0x20
    ||| n == 0x85
    ||| n == 0xa0
    ||| n == 0x1680
    ||| 0x2000 <= n <= 0x200a
    ||| n == 0x2028
    ||| n == 0x2029
    ||| n == 0x202f
    ||| n == 0x205f
    ||| n == 0x3000
}

/// `s` without its leading whitespace.
pub open spec fn trim_start_seq(s: Seq<char>) -> Seq<char>
    decreases s.len(),
{
    if s.len() > 0 && is_whitespace_char(s[0]) {
        trim_start_seq(s.subrange(1, s.len() as int))
    } else {
        s
    }
}

/// `s` without its trailing whitespace.
pub open spec fn trim_end_seq(s: Seq<char>) -> Seq<char>
    decreases s.len(),
{
    if s.len() > 0 && is_whitespace_char(s.last()) {
        trim_end_seq(s.drop_last())
    } else {
        s
    }
}

/// `s` without leading and trailing whitespace, as `str::trim` gives it.
pub open spec fn trim_seq(s: Seq<char>) -> Seq<char> {
    trim_end_seq(trim_start_seq(s))
}

/// What trimming the start leaves is empty or starts with a character that
/// is not whitespace.
proof fn lemma_trim_start_shape(s: Seq<char>)
    ensures
        trim_start_seq(s).len() > 0 ==> !is_whitespace_char(trim_start_seq(s)[0]),
    decreases s.len(),
{
    if s.len() > 0 && is_whitespace_char(s[0]) {
        lemma_trim_start_shape(s.subrange(1, s.len() as int));
    }
}

/// Trimming the end leaves a prefix of `s` that is empty or ends with a
/// character that is not whitespace.
proof fn lemma_trim_end_shape(s: Seq<char>)
    ensures
        trim_end_seq(s).len() <= s.len(),
        trim_end_seq(s) == s.subrange(0, trim_end_seq(s).len() as int),
        trim_end_seq(s).len() > 0 ==> !is_whitespace_char(trim_end_seq(s).last()),
    decreases s.len(),
{
    if s.len() > 0 && is_whitespace_char(s.last()) {
        lemma_trim_end_shape(s.drop_last());
        assert(s.drop_last().subrange(0, trim_end_seq(s).len() as int) =~= s.subrange(
            0,
            trim_end_seq(s).len() as int,
        ));
    } else {
        assert(s.subrange(0, s.len() as int) =~= s);
    }
}

/// Trimming a trimmed text changes nothing.
pub proof fn lemma_trim_idempotent(s: Seq<char>)
    ensures
        trim_seq(trim_seq(s)) == trim_seq(s),
{
    let u = trim_start_seq(s);
    let t = trim_end_seq(u);
    lemma_trim_start_shape(s);
    lemma_trim_end_shape(u);
    if t.len() > 0 {
        assert(t[0] == u[0]);
    }
    assert(trim_start_seq(t) == t);
    assert(trim_end_seq(t) == t);
}

/// A text that neither starts nor ends with whitespace is its own trim.
pub proof fn lemma_trim_fixed(s: Seq<char>)
    requires
        s.len() > 0 ==> !is_whitespace_char(s[0]) && !is_whitespace_char(s.last()),
    ensures
        trim_seq(s) == s,
{
}

/// A non-empty trimmed text neither starts nor ends with whitespace.
pub proof fn lemma_trimmed_ends(s: Seq<char>)
    requires
        trim_seq(s) == s,
        s.len() > 0,
    ensures
        !is_whitespace_char(s[0]),
        !is_whitespace_char(s.last()),
{
    let u = trim_start_seq(s);
    lemma_trim_start_shape(s);
    lemma_trim_end_shape(u);
    assert(s[0] == u[0]);
}

/// Trimming the start removes characters and adds none.
proof fn lemma_trim_start_absent(s: Seq<char>, c: char)
    requires
        forall|i: int| 0 <= i < s.len() ==> s[i] != c,
    ensures
        forall|i: int| 0 <= i < trim_start_seq(s).len() ==> trim_start_seq(s)[i] != c,
    decreases s.len(),
{
    if s.len() > 0 && is_whitespace_char(s[0]) {
        let t = s.subrange(1, s.len() as int);
        assert(forall|i: int| 0 <= i < t.len() ==> t[i] == s[i + 1]);
        lemma_trim_start_absent(t, c);
        assert(trim_start_seq(s) == trim_start_seq(t));
    }
}

/// Trimming the end removes characters and adds none.
proof fn lemma_trim_end_absent(s: Seq<char>, c: char)
    requires
        forall|i: int| 0 <= i < s.len() ==> s[i] != c,
    ensures
        forall|i: int| 0 <= i < trim_end_seq(s).len() ==> trim_end_seq(s)[i] != c,
{
    lemma_trim_end_shape(s);
}

/// A character that a text lacks, its trim lacks too.
pub proof fn lemma_trim_absent(s: Seq<char>, c: char)
    requires
        forall|i: int| 0 <= i < s.len() ==> s[i] != c,
    ensures
        forall|i: int| 0 <= i < trim_seq(s).len() ==> trim_seq(s)[i] != c,
{
    lemma_trim_start_absent(s, c);
    lemma_trim_end_absent(trim_start_seq(s), c);
}

/// The pieces of `s` between occurrences of `sep`, as `str::split` yields them:
/// one more piece than there are separators, empty pieces included.
pub open spec fn split_seq(s: Seq<char>, sep: char) -> Seq<Seq<char>>
    decreases s.len(),
{
    if s.len() == 0 {
        seq![Seq::<char>::empty()]
    } else {
        let rest = split_seq(s.drop_last(), sep);
        if s.last() == sep {
            rest.push(Seq::<char>::empty())
        } else {
            rest.update(rest.len() - 1, rest.last().push(s.last()))
        }
    }
}

/// Splitting yields at least one piece.
pub proof fn lemma_split_nonempty(s: Seq<char>, sep: char)
    ensures
        split_seq(s, sep).len() >= 1,
    decreases s.len(),
{
    if s.len() > 0 {
        lemma_split_nonempty(s.drop_last(), sep);
    }
}

/// A text without the separator splits into itself alone.
pub proof fn lemma_split_without_sep(s: Seq<char>, sep: char)
    requires
        forall|i: int| 0 <= i < s.len() ==> s[i] != sep,
    ensures
        split_seq(s, sep) == seq![s],
    decreases s.len(),
{
    if s.len() == 0 {
        assert(s =~= Seq::<char>::empty());
    } else {
        lemma_split_without_sep(s.drop_last(), sep);
        assert(s.drop_last().push(s.last()) =~= s);
        assert(split_seq(s, sep) =~= seq![s]);
    }
}

/// Splitting `a`, the separator, then `b` gives the pieces of `a` followed by
/// those of `b`.
pub proof fn lemma_split_joined(a: Seq<char>, b: Seq<char>, sep: char)
    ensures
        split_seq(a + seq![sep] + b, sep) == split_seq(a, sep) + split_seq(b, sep),
    decreases b.len(),
{
    let x = a + seq![sep] + b;
    lemma_split_nonempty(a, sep);
    if b.len() == 0 {
        assert(x.drop_last() =~= a);
        assert(split_seq(x, sep) =~= split_seq(a, sep) + split_seq(b, sep));
    } else {
        let b1 = b.drop_last();
        assert(x.drop_last() =~= a + seq![sep] + b1);
        lemma_split_joined(a, b1, sep);
        lemma_split_nonempty(b1, sep);
        let pa = split_seq(a, sep);
        let pb = split_seq(b1, sep);
        if b.last() == sep {
            assert(split_seq(x, sep) =~= pa + split_seq(b, sep));
        } else {
            assert((pa + pb).update(pa.len() + pb.len() - 1, (pa + pb).last().push(b.last()))
                =~= pa + pb.update(pb.len() - 1, pb.last().push(b.last())));
        }
    }
}

/// No piece of a split holds the separator.
pub proof fn lemma_split_pieces_without_sep(s: Seq<char>, sep: char)
    ensures
        forall|i: int, j: int|
            0 <= i < split_seq(s, sep).len() && 0 <= j < split_seq(s, sep)[i].len()
                ==> #[trigger] split_seq(s, sep)[i][j] != sep,
    decreases s.len(),
{
    if s.len() > 0 {
        lemma_split_pieces_without_sep(s.drop_last(), sep);
        lemma_split_nonempty(s.drop_last(), sep);
        let rest = split_seq(s.drop_last(), sep);
        if s.last() != sep {
            let r = split_seq(s, sep);
            assert forall|i: int, j: int| 0 <= i < r.len() && 0 <= j < r[i].len() implies #[trigger] r[i][j]
                != sep by {
                if i == rest.len() - 1 && j == r[i].len() - 1 {
                    assert(r[i][j] == s.last());
                } else if i == rest.len() - 1 {
                    assert(r[i][j] == rest[i][j]);
                } else {
                    assert(r[i] == rest[i]);
                }
            }
        } else {
            let r = split_seq(s, sep);
            assert forall|i: int, j: int| 0 <= i < r.len() && 0 <= j < r[i].len() implies #[trigger] r[i][j]
                != sep by {
                assert(r[i] == rest[i]);
            }
        }
    }
}

pub open spec fn is_digit_char(c: char) -> bool {
    '0' <= c && c <= '9'
}

pub open spec fn all_digits(s: Seq<char>) -> bool {
    forall|i: int| 0 <= i < s.len() ==> is_digit_char(#[trigger] s[i])
}

pub open spec fn digit_value(c: char) -> nat {
    (c as int - '0' as int) as nat
}

/// The number that a string of decimal digits denotes.
pub open spec fn digits_value(s: Seq<char>) -> nat
    decreases s.len(),
{
    if s.len() == 0 {
        0
    } else {
        digits_value(s.drop_last()) * 10 + digit_value(s.last())
    }
}

/// The digits that an unsigned integer parse reads: a leading `+` is skipped.
pub open spec fn unsigned_body(s: Seq<char>) -> Seq<char> {
    if s.len() > 0 && s[0] == '+' {
        s.subrange(1, s.len() as int)
    } else {
        s
    }
}

/// What `str::parse` gives for an unsigned integer type whose largest value is
/// `max`: the value when the text is an optional `+` and at least one decimal
/// digit and the value fits, and nothing otherwise.
pub open spec fn parse_unsigned_spec(s: Seq<char>, max: nat) -> Option<nat> {
    let body = unsigned_body(s);
    if body.len() > 0 && all_digits(body) && digits_value(body) <= max {
        Some(digits_value(body))
    } else {
        None
    }
}

/// Whether `needle` occurs in `hay` as a contiguous run of characters.
pub open spec fn contains_seq(hay: Seq<char>, needle: Seq<char>) -> bool {
    exists|i: int| 0 <= i <= hay.len() - needle.len() && #[trigger] hay.subrange(i, i + needle.len())
        == needle
}

/// What `str::parse::<bool>` gives.
pub open spec fn parse_bool_spec(s: Seq<char>) -> Option<bool> {
    if s == seq!['t', 'r', 'u', 'e'] {
        Some(true)
    } else if s == seq!['f', 'a', 'l', 's', 'e'] {
        Some(false)
    } else {
        None
    }
}

pub open spec fn digit_char(d: nat) -> char
    recommends
        d < 10,
{
    ((d + '0' as int) as u32) as char
}

/// The decimal representation of `n`, as `{}` formats an unsigned integer.
pub open spec fn decimal_seq(n: nat) -> Seq<char>
    decreases n,
{
    if n < 10 {
        seq![digit_char(n)]
    } else {
        decimal_seq(n / 10).push(digit_char(n % 10))
    }
}

/// An owned copy of a string slice.
pub fn owned(s: &str) -> (r: String)
    ensures
        r@ == s@,
{
    let r = s.to_string();
    proof {
        vstd::string::to_string_from_display_ensures_for_str(s, r);
    }
    r
}

/// `a` followed by `b`.
pub fn concat(a: String, b: &str) -> (r: String)
    ensures
        r@ == a@ + b@,
{
    let mut r = a;
    r.append(b);
    r
}

/// The characters of a string slice.
pub fn chars_of(s: &str) -> (v: Vec<char>)
    ensures
        v@ == s@,
{
    let mut v: Vec<char> = Vec::new();
    for c in it: s.chars()
        invariant
            v@ == it.seq().take(it.index() as int),
            it.seq() == s@,
    {
        v.push(c);
    }
    v
}

/// Builds a string from the characters `v[lo..hi]` (`String: FromIterator<char>`).
#[verifier::external_body]
pub(crate) fn string_from_chars(v: &Vec<char>, lo: usize, hi: usize) -> (s: String)
    requires
        lo <= hi <= v.len(),
    ensures
        s@ == v@.subrange(lo as int, hi as int),
{
    v[lo..hi].iter().collect::<String>()
}

/// Whether `a[alo..ahi]` and `b[blo..bhi]` hold the same characters.
pub fn same_chars(a: &Vec<char>, alo: usize, ahi: usize, b: &Vec<char>, blo: usize, bhi: usize) -> (r:
    bool)
    requires
        alo <= ahi <= a.len(),
        blo <= bhi <= b.len(),
    ensures
        r == (a@.subrange(alo as int, ahi as int) == b@.subrange(blo as int, bhi as int)),
{
    if ahi - alo != bhi - blo {
        assert(a@.subrange(alo as int, ahi as int).len() != b@.subrange(blo as int, bhi as int).len());
        return false;
    }
    let n = ahi - alo;
    let mut i: usize = 0;
    while i < n
        invariant
            alo <= ahi <= a.len(),
            blo <= bhi <= b.len(),
            n == ahi - alo,
            n == bhi - blo,
            i <= n,
            a@.subrange(alo as int, alo + i) =~= b@.subrange(blo as int, blo + i),
        decreases n - i,
    {
        assert(a@.subrange(alo as int, alo + i + 1) =~= a@.subrange(alo as int, alo + i).push(
            a@[alo + i],
        ));
        assert(b@.subrange(blo as int, blo + i + 1) =~= b@.subrange(blo as int, blo + i).push(
            b@[blo + i],
        ));
        if a[alo + i] != b[blo + i] {
            assert(a@.subrange(alo as int, ahi as int)[i as int] != b@.subrange(
                blo as int,
                bhi as int,
            )[i as int]);
            return false;
        }
        i = i + 1;
    }
    assert(a@.subrange(alo as int, ahi as int) =~= b@.subrange(blo as int, bhi as int));
    true
}

/// Whether two strings hold the same characters.
pub fn str_eq(a: &str, b: &str) -> (r: bool)
    ensures
        r == (a@ == b@),
{
    let va = chars_of(a);
    let vb = chars_of(b);
    let r = same_chars(&va, 0, va.len(), &vb, 0, vb.len());
    assert(va@.subrange(0, va.len() as int) =~= va@);
    assert(vb@.subrange(0, vb.len() as int) =~= vb@);
    r
}

pub fn is_whitespace(c: char) -> (r: bool)
    ensures
        r == is_whitespace_char(c),
{
    let n = c as u32;
    (0x9 <= n && n <= 0xd) || n == 0x20 || n == 0x85 || n == 0xa0 || n == 0x1680 || (0x2000 <= n
        && n <= 0x200a) || n == 0x2028 || n == 0x2029 || n == 0x202f || n == 0x205f || n == 0x3000
}

/// The bounds, within `lo..hi`, of the trimmed text of `v[lo..hi]`.
pub fn trim_bounds(v: &Vec<char>, lo: usize, hi: usize) -> (r: (usize, usize))
    requires
        lo <= hi <= v.len(),
    ensures
        lo <= r.0 <= r.1 <= hi,
        v@.subrange(r.0 as int, r.1 as int) == trim_seq(v@.subrange(lo as int, hi as int)),
{
    let mut i = lo;
    while i < hi && is_whitespace(v[i])
        invariant
            lo <= i <= hi <= v.len(),
            trim_start_seq(v@.subrange(lo as int, hi as int)) == trim_start_seq(
                v@.subrange(i as int, hi as int),
            ),
        decreases hi - i,
    {
        assert(v@.subrange(i as int, hi as int).subrange(1, (hi - i) as int) =~= v@.subrange(
            i + 1,
            hi as int,
        ));
        i = i + 1;
    }
    assert(trim_start_seq(v@.subrange(i as int, hi as int)) == v@.subrange(i as int, hi as int));
    let mut j = hi;
    while j > i && is_whitespace(v[j - 1])
        invariant
            lo <= i <= j <= hi <= v.len(),
            trim_end_seq(v@.subrange(i as int, hi as int)) == trim_end_seq(
                v@.subrange(i as int, j as int),
            ),
        decreases j - i,
    {
        assert(v@.subrange(i as int, j as int).drop_last() =~= v@.subrange(i as int, j - 1));
        j = j - 1;
    }
    (i, j)
}

/// The spans of the pieces of `v[lo..hi]` between occurrences of `sep`.
pub fn split_spans(v: &Vec<char>, lo: usize, hi: usize, sep: char) -> (r: Vec<(usize, usize)>)
    requires
        lo <= hi <= v.len(),
    ensures
        r.len() == split_seq(v@.subrange(lo as int, hi as int), sep).len(),
        forall|k: int|
            0 <= k < r.len() ==> lo <= (#[trigger] r[k]).0 <= r[k].1 <= hi && v@.subrange(
                r[k].0 as int,
                r[k].1 as int,
            ) == split_seq(v@.subrange(lo as int, hi as int), sep)[k],
{
    let mut spans: Vec<(usize, usize)> = Vec::new();
    let mut start = lo;
    let mut i = lo;
    assert(v@.subrange(lo as int, lo as int) =~= Seq::<char>::empty());
    while i < hi
        invariant
            lo <= start <= i <= hi <= v.len(),
            spans.len() + 1 == split_seq(v@.subrange(lo as int, i as int), sep).len(),
            forall|k: int|
                0 <= k < spans.len() ==> lo <= (#[trigger] spans[k]).0 <= spans[k].1 <= i
                    && v@.subrange(spans[k].0 as int, spans[k].1 as int) == split_seq(
                    v@.subrange(lo as int, i as int),
                    sep,
                )[k],
            v@.subrange(start as int, i as int) == split_seq(
                v@.subrange(lo as int, i as int),
                sep,
            ).last(),
        decreases hi - i,
    {
        let ghost prev = split_seq(v@.subrange(lo as int, i as int), sep);
        assert(v@.subrange(lo as int, i + 1).drop_last() =~= v@.subrange(lo as int, i as int));
        assert(v@.subrange(lo as int, i + 1).last() == v@[i as int]);
        if v[i] == sep {
            spans.push((start, i));
            start = i + 1;
            assert(v@.subrange(start as int, i + 1) =~= Seq::<char>::empty());
        } else {
            assert(v@.subrange(start as int, i + 1) =~= v@.subrange(start as int, i as int).push(
                v@[i as int],
            ));
        }
        i = i + 1;
    }
    spans.push((start, hi));
    spans
}

/// The first index at or after `lo` and before `hi` where `c` occurs in `v`.
pub fn find_char(v: &Vec<char>, lo: usize, hi: usize, c: char) -> (r: Option<usize>)
    requires
        lo <= hi <= v.len(),
    ensures
        match r {
            Some(i) => {
                &&& lo <= i < hi
                &&& v@.subrange(lo as int, hi as int).index_of_first(c) == Some((i - lo) as int)
            },
            None => !v@.subrange(lo as int, hi as int).contains(c),
        },
{
    let ghost s = v@.subrange(lo as int, hi as int);
    proof {
        s.index_of_first_ensures(c);
    }
    let mut i = lo;
    while i < hi
        invariant
            lo <= i <= hi <= v.len(),
            s == v@.subrange(lo as int, hi as int),
            forall|j: int| 0 <= j < i - lo ==> s[j] != c,
        decreases hi - i,
    {
        if v[i] == c {
            assert(s[i - lo] == c);
            proof {
                s.index_of_first_ensures(c);
                let idx = s.index_of_first(c)->0;
                if idx < i - lo {
                    assert(s[idx] != c);
                }
                if idx > i - lo {
                    assert(s[i - lo] != c);
                }
            }
            return Some(i);
        }
        i = i + 1;
    }
    None
}

proof fn lemma_digits_value_prefix_le(s: Seq<char>, j: int)
    requires
        0 <= j <= s.len(),
    ensures
        digits_value(s.subrange(0, j)) <= digits_value(s),
    decreases s.len(),
{
    if j < s.len() {
        lemma_digits_value_prefix_le(s.drop_last(), j);
        assert(s.drop_last().subrange(0, j) =~= s.subrange(0, j));
    } else {
        assert(s.subrange(0, j) =~= s);
    }
}

/// Parses `v[lo..hi]` as an unsigned decimal number no larger than `max`, as
/// `str::parse` does for an unsigned integer type whose largest value is `max`.
pub fn parse_unsigned(v: &Vec<char>, lo: usize, hi: usize, max: u64) -> (r: Option<u64>)
    requires
        lo <= hi <= v.len(),
    ensures
        r == (match parse_unsigned_spec(v@.subrange(lo as int, hi as int), max as nat) {
            Some(n) => Some(n as u64),
            None => None::<u64>,
        }),
{
    let ghost s = v@.subrange(lo as int, hi as int);
    let mut start = lo;
    if lo < hi && v[lo] == '+' {
        start = lo + 1;
    }
    let ghost body = v@.subrange(start as int, hi as int);
    assert(s.len() == hi - lo);
    if lo < hi {
        assert(s[0] == v@[lo as int]);
    }
    assert(body =~= unsigned_body(s));
    if start == hi {
        return None;
    }
    let mut i = start;
    while i < hi
        invariant
            start <= i <= hi <= v.len(),
            body == v@.subrange(start as int, hi as int),
            body == unsigned_body(v@.subrange(lo as int, hi as int)),
            forall|k: int| 0 <= k < i - start ==> is_digit_char(#[trigger] body[k]),
        decreases hi - i,
    {
        assert(body[i - start] == v@[i as int]);
        if !('0' <= v[i] && v[i] <= '9') {
            assert(!is_digit_char(body[i - start]));
            return None;
        }
        i = i + 1;
    }
    assert(all_digits(body));
    let mut acc: u64 = 0;
    let mut k = start;
    assert(body.subrange(0, 0) =~= Seq::<char>::empty());
    while k < hi
        invariant
            start <= k <= hi <= v.len(),
            body == v@.subrange(start as int, hi as int),
            body == unsigned_body(v@.subrange(lo as int, hi as int)),
            body.len() > 0,
            all_digits(body),
            acc as nat == digits_value(body.subrange(0, k - start)),
            acc <= max,
        decreases hi - k,
    {
        assert(body[k - start] == v@[k as int]);
        assert(is_digit_char(body[k - start]));
        let d = ((v[k] as u32) - 48u32) as u64;
        assert(body.subrange(0, k + 1 - start).drop_last() =~= body.subrange(0, k - start));
        assert(body.subrange(0, k + 1 - start).last() == v@[k as int]);
        assert(digits_value(body.subrange(0, k + 1 - start)) == acc * 10 + d);
        if acc > max / 10 {
            assert(acc * 10 + d > max) by (nonlinear_arith)
                requires
                    acc > max / 10,
            ;
            proof {
                lemma_digits_value_prefix_le(body, k + 1 - start);
            }
            return None;
        }
        assert(acc * 10 <= max) by (nonlinear_arith)
            requires
                acc <= max / 10,
        ;
        let t = acc * 10;
        if d > max - t {
            proof {
                lemma_digits_value_prefix_le(body, k + 1 - start);
            }
            return None;
        }
        acc = t + d;
        k = k + 1;
    }
    assert(body.subrange(0, hi - start) =~= body);
    Some(acc)
}

/// Parses `v[lo..hi]` as a `bool`, as `str::parse::<bool>` does.
pub fn parse_bool(v: &Vec<char>, lo: usize, hi: usize) -> (r: Option<bool>)
    requires
        lo <= hi <= v.len(),
    ensures
        r == parse_bool_spec(v@.subrange(lo as int, hi as int)),
{
    let ghost s = v@.subrange(lo as int, hi as int);
    if hi - lo == 4 && v[lo] == 't' && v[lo + 1] == 'r' && v[lo + 2] == 'u' && v[lo + 3] == 'e' {
        assert(s =~= seq!['t', 'r', 'u', 'e']);
        Some(true)
    } else if hi - lo == 5 && v[lo] == 'f' && v[lo + 1] == 'a' && v[lo + 2] == 'l' && v[lo + 3]
        == 's' && v[lo + 4] == 'e' {
        assert(s =~= seq!['f', 'a', 'l', 's', 'e']);
        Some(false)
    } else {
        proof {
            if s == seq!['t', 'r', 'u', 'e'] {
                assert(s.len() == 4);
                assert(s[0] == 't' && s[1] == 'r' && s[2] == 'u' && s[3] == 'e');
                assert(v@[lo as int] == s[0] && v@[lo + 1] == s[1] && v@[lo + 2] == s[2] && v@[lo
                    + 3] == s[3]);
            }
            if s == seq!['f', 'a', 'l', 's', 'e'] {
                assert(s.len() == 5);
                assert(s[0] == 'f' && s[1] == 'a' && s[2] == 'l' && s[3] == 's' && s[4] == 'e');
                assert(v@[lo as int] == s[0] && v@[lo + 1] == s[1] && v@[lo + 2] == s[2] && v@[lo
                    + 3] == s[3] && v@[lo + 4] == s[4]);
            }
        }
        None
    }
}

/// Appends the decimal digits of `n` to `out`.
pub fn push_decimal(out: &mut Vec<char>, n: u64)
    ensures
        final(out)@ == old(out)@ + decimal_seq(n as nat),
    decreases n,
{
    if n >= 10 {
        push_decimal(out, n / 10);
    }
    let d = n % 10;
    let c = ((d as u8) + 48u8) as char;
    out.push(c);
    assert(c == digit_char(d as nat));
}

} // verus!

verus! {

/// Whether `needle` occurs in `hay`, as `str::contains` decides it.
pub fn str_contains(hay: &str, needle: &str) -> (r: bool)
    ensures
        r == contains_seq(hay@, needle@),
{
    let h = chars_of(hay);
    let n = chars_of(needle);
    if n.len() > h.len() {
        return false;
    }
    let last = h.len() - n.len();
    let mut i: usize = 0;
    assert(n@.subrange(0, n.len() as int) =~= n@);
    while i <= last
        invariant
            h@ == hay@,
            n@ == needle@,
            last == h.len() - n.len(),
            i <= last + 1,
            forall|j: int| 0 <= j < i ==> #[trigger] hay@.subrange(j, j + needle@.len()) != needle@,
        decreases last + 1 - i,
    {
        if same_chars(&h, i, i + n.len(), &n, 0, n.len()) {
            assert(n@.subrange(0, n.len() as int) =~= n@);
            assert(hay@.subrange(i as int, i + needle@.len()) == needle@);
            return true;
        }
        assert(n@.subrange(0, n.len() as int) =~= n@);
        if i == last {
            return false;
        }
        i = i + 1;
    }
    false
}

/// The text `s` as an owned string.
pub trait TextValue {
    /// The characters of the text.
    spec fn text(&self) -> Seq<char>;

    /// The text as an owned string.
    fn into_string(self) -> (r: String)
        ensures
            r@ == self.text(),
    ;
}

impl TextValue for &str {
    open spec fn text(&self) -> Seq<char> {
        (*self)@
    }

    fn into_string(self) -> (r: String) {
        owned(self)
    }
}

impl TextValue for String {
    open spec fn text(&self) -> Seq<char> {
        self@
    }

    fn into_string(self) -> (r: String) {
        self
    }
}

/// Parses a whole string as a `usize`, as `str::parse::<usize>` does.
pub fn parse_usize_str(s: &str) -> (r: Option<usize>)
    ensures
        r == (match parse_unsigned_spec(s@, usize::MAX as nat) {
            Some(n) => Some(n as usize),
            None => None::<usize>,
        }),
{
    let v = chars_of(s);
    assert(v@.subrange(0, v.len() as int) =~= s@);
    match parse_unsigned(&v, 0, v.len(), usize::MAX as u64) {
        Some(n) => Some(n as usize),
        None => None,
    }
}

/// Parses a whole string as a `u32`, as `str::parse::<u32>` does.
pub fn parse_u32_str(s: &str) -> (r: Option<u32>)
    ensures
        r == (match parse_unsigned_spec(s@, u32::MAX as nat) {
            Some(n) => Some(n as u32),
            None => None::<u32>,
        }),
{
    let v = chars_of(s);
    assert(v@.subrange(0, v.len() as int) =~= s@);
    match parse_unsigned(&v, 0, v.len(), u32::MAX as u64) {
        Some(n) => Some(n as u32),
        None => None,
    }
}

/// Parses a whole string as a `u64`, as `str::parse::<u64>` does.
pub fn parse_u64_str(s: &str) -> (r: Option<u64>)
    ensures
        r == (match parse_unsigned_spec(s@, u64::MAX as nat) {
            Some(n) => Some(n as u64),
            None => None::<u64>,
        }),
{
    let v = chars_of(s);
    assert(v@.subrange(0, v.len() as int) =~= s@);
    parse_unsigned(&v, 0, v.len(), u64::MAX)
}

/// Parses a whole string as a `bool`, as `str::parse::<bool>` does.
pub fn parse_bool_str(s: &str) -> (r: Option<bool>)
    ensures
        r == parse_bool_spec(s@),
{
    let v = chars_of(s);
    assert(v@.subrange(0, v.len() as int) =~= s@);
    parse_bool(&v, 0, v.len())
}

} // verus!

verus! {

/// Appends the characters of `s` to `out`.
pub fn push_str(out: &mut Vec<char>, s: &str)
    ensures
        final(out)@ == old(out)@ + s@,
{
    let c = chars_of(s);
    let mut i: usize = 0;
    let ghost start = out@;
    while i < c.len()
        invariant
            i <= c.len(),
            c@ == s@,
            out@ == start + c@.subrange(0, i as int),
        decreases c.len() - i,
    {
        out.push(c[i]);
        assert(c@.subrange(0, i + 1) =~= c@.subrange(0, i as int).push(c@[i as int]));
        i = i + 1;
    }
    assert(c@.subrange(0, c.len() as int) =~= c@);
}

/// `prefix` followed by the decimal digits of `n`.
pub fn with_decimal(prefix: String, n: u64) -> (r: String)
    ensures
        r@ == prefix@ + decimal_seq(n as nat),
{
    let mut out = chars_of(prefix.as_str());
    push_decimal(&mut out, n);
    let r = string_from_chars(&out, 0, out.len());
    assert(out@.subrange(0, out.len() as int) =~= out@);
    r
}

} // verus!
