//! Character-level text handling shared by the configuration parser and the
//! runtime helpers: whitespace classes, trimming, splitting, lexicographic
//! order and decimal parsing, each with the specification it is proved
//! against.
use vstd::prelude::*;

verus! {

// ---------------------------------------------------------------------------
// Character classes
// ---------------------------------------------------------------------------
/// `char::is_whitespace`: the Unicode `White_Space` property.
pub open spec fn is_unicode_ws(c: char) -> bool {
    let u = c as u32;
    ||| 9 <= u <= 13
    ||| u == 32
    ||| u == 0x85
    ||| u == 0xA0
    ||| u == 0x1680
    ||| 0x2000 <= u <= 0x200A
    ||| u == 0x2028
    ||| u == 0x2029
    ||| u == 0x202F
    ||| u == 0x205F
    ||| u == 0x3000
}

/// `char::is_ascii_whitespace`: space, tab, line feed, form feed, carriage return.
pub open spec fn is_ascii_ws(c: char) -> bool {
    c == ' ' || c == '\t' || c == '\n' || c == '\x0C' || c == '\r'
}

pub fn char_is_whitespace(c: char) -> (r: bool)
    ensures
        r == is_unicode_ws(c),
{
    let u = c as u32;
    (9 <= u && u <= 13) || u == 32 || u == 0x85 || u == 0xA0 || u == 0x1680 || (0x2000 <= u && u
        <= 0x200A) || u == 0x2028 || u == 0x2029 || u == 0x202F || u == 0x205F || u == 0x3000
}

pub fn char_is_ascii_whitespace(c: char) -> (r: bool)
    ensures
        r == is_ascii_ws(c),
{
    c == ' ' || c == '\t' || c == '\n' || c == '\x0C' || c == '\r'
}

// ---------------------------------------------------------------------------
// Trimming
// ---------------------------------------------------------------------------
/// `str::trim_start`.
pub open spec fn trim_start(s: Seq<char>) -> Seq<char>
    decreases s.len(),
{
    if s.len() > 0 && is_unicode_ws(s[0]) {
        trim_start(s.drop_first())
    } else {
        s
    }
}

/// `str::trim_end`.
pub open spec fn trim_end(s: Seq<char>) -> Seq<char>
    decreases s.len(),
{
    if s.len() > 0 && is_unicode_ws(s.last()) {
        trim_end(s.drop_last())
    } else {
        s
    }
}

/// `str::trim`.
pub open spec fn trim(s: Seq<char>) -> Seq<char> {
    trim_end(trim_start(s))
}

proof fn lemma_trim_start_skip(s: Seq<char>, i: int)
    requires
        0 <= i <= s.len(),
        forall|j: int| 0 <= j < i ==> is_unicode_ws(#[trigger] s[j]),
    ensures
        trim_start(s) == trim_start(s.subrange(i, s.len() as int)),
    decreases i,
{
    if i > 0 {
        assert(s.drop_first().subrange(i - 1, s.drop_first().len() as int) =~= s.subrange(
            i,
            s.len() as int,
        ));
        lemma_trim_start_skip(s.drop_first(), i - 1);
    } else {
        assert(s.subrange(0, s.len() as int) =~= s);
    }
}

proof fn lemma_trim_end_take(s: Seq<char>, k: int)
    requires
        0 <= k <= s.len(),
        forall|j: int| k <= j < s.len() ==> is_unicode_ws(#[trigger] s[j]),
    ensures
        trim_end(s) == trim_end(s.subrange(0, k)),
    decreases s.len() - k,
{
    if k < s.len() {
        assert(s.drop_last().subrange(0, k) =~= s.subrange(0, k));
        lemma_trim_end_take(s.drop_last(), k);
    } else {
        assert(s.subrange(0, k) =~= s);
    }
}

/// Copies `s[from..to]` into a new vector.
pub fn copy_range(s: &Vec<char>, from: usize, to: usize) -> (out: Vec<char>)
    requires
        from <= to <= s.len(),
    ensures
        out@ == s@.subrange(from as int, to as int),
{
    let mut out: Vec<char> = Vec::new();
    let mut i = from;
    while i < to
        invariant
            from <= i <= to <= s.len(),
            out@ == s@.subrange(from as int, i as int),
        decreases to - i,
    {
        out.push(s[i]);
        i = i + 1;
    }
    out
}

/// Trims Unicode whitespace from both ends, as `str::trim` does.
pub fn trim_chars(s: &Vec<char>) -> (out: Vec<char>)
    ensures
        out@ == trim(s@),
{
    let n = s.len();
    let mut i: usize = 0;
    while i < n && char_is_whitespace(s[i])
        invariant
            0 <= i <= n == s.len(),
            forall|j: int| 0 <= j < i ==> is_unicode_ws(#[trigger] s@[j]),
        decreases n - i,
    {
        i = i + 1;
    }
    proof {
        lemma_trim_start_skip(s@, i as int);
        let r = s@.subrange(i as int, n as int);
        if r.len() > 0 {
            assert(r[0] == s@[i as int]);
        }
        assert(trim_start(r) == r);
    }
    let mut k: usize = n;
    while k > i && char_is_whitespace(s[k - 1])
        invariant
            i <= k <= n == s.len(),
            forall|j: int| k <= j < n ==> is_unicode_ws(#[trigger] s@[j]),
        decreases k,
    {
        k = k - 1;
    }
    proof {
        let r = s@.subrange(i as int, n as int);
        assert forall|j: int| k - i <= j < r.len() implies is_unicode_ws(#[trigger] r[j]) by {
            assert(r[j] == s@[i + j]);
        }
        lemma_trim_end_take(r, k - i);
        let t = r.subrange(0, k - i);
        assert(t =~= s@.subrange(i as int, k as int));
        if t.len() > 0 {
            assert(t.last() == s@[k - 1]);
        }
    }
    copy_range(s, i, k)
}

// ---------------------------------------------------------------------------
// Splitting
// ---------------------------------------------------------------------------
/// The pieces of `s` between occurrences of `sep`, empty pieces included
/// (`str::split` with a character pattern). There is always at least one piece.
pub open spec fn split_by(s: Seq<char>, sep: char) -> Seq<Seq<char>>
    decreases s.len(),
{
    if s.len() == 0 {
        seq![Seq::<char>::empty()]
    } else {
        let p = split_by(s.drop_last(), sep);
        if s.last() == sep {
            p.push(Seq::<char>::empty())
        } else {
            p.update(p.len() - 1, p.last().push(s.last()))
        }
    }
}

pub proof fn lemma_split_by_nonempty(s: Seq<char>, sep: char)
    ensures
        split_by(s, sep).len() >= 1,
    decreases s.len(),
{
    if s.len() > 0 {
        lemma_split_by_nonempty(s.drop_last(), sep);
    }
}

/// One step of `split_by`: appending a character either closes the current
/// piece (the separator) or extends it.
pub proof fn lemma_split_by_step(s: Seq<char>, sep: char, c: char)
    ensures
        split_by(s.push(c), sep) == (if c == sep {
            split_by(s, sep).push(Seq::<char>::empty())
        } else {
            split_by(s, sep).update(
                split_by(s, sep).len() - 1,
                split_by(s, sep).last().push(c),
            )
        }),
{
    assert(s.push(c).drop_last() =~= s);
}

/// Index of the first `c` in `s`, or `s.len()` when there is none.
pub open spec fn find_char(s: Seq<char>, c: char) -> int
    decreases s.len(),
{
    if s.len() == 0 {
        0
    } else if s[0] == c {
        0
    } else {
        1 + find_char(s.drop_first(), c)
    }
}

pub proof fn lemma_find_char_bounds(s: Seq<char>, c: char)
    ensures
        0 <= find_char(s, c) <= s.len(),
        find_char(s, c) < s.len() ==> s[find_char(s, c)] == c,
        forall|j: int| 0 <= j < find_char(s, c) ==> s[j] != c,
    decreases s.len(),
{
    if s.len() > 0 && s[0] != c {
        lemma_find_char_bounds(s.drop_first(), c);
        assert forall|j: int| 0 <= j < find_char(s, c) implies s[j] != c by {
            if j > 0 {
                assert(s[j] == s.drop_first()[j - 1]);
            }
        }
    }
}

/// The part of `s` before the first `c` (all of `s` when there is none).
pub open spec fn before_char(s: Seq<char>, c: char) -> Seq<char> {
    s.take(find_char(s, c))
}

pub fn before_char_exec(s: &Vec<char>, c: char) -> (out: Vec<char>)
    ensures
        out@ == before_char(s@, c),
{
    proof {
        lemma_find_char_bounds(s@, c);
    }
    let mut i: usize = 0;
    while i < s.len() && s[i] != c
        invariant
            0 <= i <= s.len(),
            forall|j: int| 0 <= j < i ==> s@[j] != c,
        decreases s.len() - i,
    {
        i = i + 1;
    }
    proof {
        // i is the first occurrence (or the length), as is find_char.
        let f = find_char(s@, c);
        if f < i {
            assert(s@[f] == c);
        }
        if i < f {
            assert(s@[i as int] == c);
        }
        assert(f == i);
    }
    copy_range(s, 0, i)
}

/// Splits `s` at every `sep`, empty pieces included.
pub fn split_chars(s: &Vec<char>, sep: char) -> (out: Vec<Vec<char>>)
    ensures
        out.deep_view() == split_by(s@, sep),
{
    let mut out: Vec<Vec<char>> = Vec::new();
    let mut cur: Vec<char> = Vec::new();
    let mut k: usize = 0;
    assert(s@.take(0) =~= Seq::<char>::empty());
    assert(out.deep_view().push(cur@) =~= split_by(s@.take(0), sep));
    while k < s.len()
        invariant
            0 <= k <= s.len(),
            split_by(s@.take(k as int), sep) == out.deep_view().push(cur@),
        decreases s.len() - k,
    {
        let c = s[k];
        proof {
            lemma_split_by_step(s@.take(k as int), sep, c);
            assert(s@.take(k + 1) =~= s@.take(k as int).push(c));
        }
        if c == sep {
            let ghost before = out.deep_view();
            let ghost before_v = out@;
            let line = cur;
            out.push(line);
            assert(out.deep_view() =~= before.push(line@)) by {
                assert forall|x: int| 0 <= x < out.len() implies out.deep_view()[x] == before.push(
                    line@,
                )[x] by {
                    if x < before_v.len() {
                        assert(out@[x] == before_v[x]);
                    }
                }
            }
            cur = Vec::new();
            assert(out.deep_view().push(cur@) =~= split_by(s@.take(k + 1), sep));
        } else {
            proof {
                let p = split_by(s@.take(k as int), sep);
                assert(p.last() == cur@);
            }
            cur.push(c);
            assert(out.deep_view().push(cur@) =~= split_by(s@.take(k + 1), sep));
        }
        k = k + 1;
    }
    assert(s@.take(s.len() as int) =~= s@);
    let ghost before = out.deep_view();
    let ghost before_v = out@;
    let last = cur;
    out.push(last);
    assert(out.deep_view() =~= before.push(last@)) by {
        assert forall|x: int| 0 <= x < out.len() implies out.deep_view()[x] == before.push(last@)[x] by {
            if x < before_v.len() {
                assert(out@[x] == before_v[x]);
            }
        }
    }
    out
}

// ---------------------------------------------------------------------------
// Order and equality
// ---------------------------------------------------------------------------
/// Lexicographic order on character sequences: the order `String`'s `Ord`
/// gives (UTF-8 preserves the order of code points).
pub open spec fn lex_lt(a: Seq<char>, b: Seq<char>) -> bool
    decreases a.len(),
{
    if a.len() == 0 {
        b.len() > 0
    } else if b.len() == 0 {
        false
    } else if a[0] != b[0] {
        a[0] < b[0]
    } else {
        lex_lt(a.drop_first(), b.drop_first())
    }
}

pub proof fn lemma_lex_irreflexive(a: Seq<char>)
    ensures
        !lex_lt(a, a),
    decreases a.len(),
{
    if a.len() > 0 {
        lemma_lex_irreflexive(a.drop_first());
    }
}

pub proof fn lemma_lex_trans(a: Seq<char>, b: Seq<char>, c: Seq<char>)
    requires
        lex_lt(a, b),
        lex_lt(b, c),
    ensures
        lex_lt(a, c),
    decreases a.len(),
{
    if a.len() > 0 && b.len() > 0 && c.len() > 0 {
        if a[0] == b[0] && b[0] == c[0] {
            lemma_lex_trans(a.drop_first(), b.drop_first(), c.drop_first());
        }
    }
}

pub proof fn lemma_lex_total(a: Seq<char>, b: Seq<char>)
    ensures
        a == b || lex_lt(a, b) || lex_lt(b, a),
    decreases a.len(),
{
    if a.len() > 0 && b.len() > 0 && a[0] == b[0] {
        lemma_lex_total(a.drop_first(), b.drop_first());
        if a.drop_first() == b.drop_first() {
            assert(a =~= seq![a[0]] + a.drop_first());
            assert(b =~= seq![b[0]] + b.drop_first());
        }
    } else if a.len() == 0 && b.len() == 0 {
        assert(a =~= b);
    } else if a.len() > 0 && b.len() > 0 {
    }
}

pub proof fn lemma_lex_asym(a: Seq<char>, b: Seq<char>)
    requires
        lex_lt(a, b),
    ensures
        !lex_lt(b, a),
{
    if lex_lt(b, a) {
        lemma_lex_trans(a, b, a);
        lemma_lex_irreflexive(a);
    }
}

proof fn lemma_lex_skip(a: Seq<char>, b: Seq<char>, i: int)
    requires
        0 <= i <= a.len(),
        i <= b.len(),
        forall|j: int| 0 <= j < i ==> a[j] == b[j],
    ensures
        lex_lt(a, b) == lex_lt(a.subrange(i, a.len() as int), b.subrange(i, b.len() as int)),
    decreases i,
{
    if i > 0 {
        assert(a.drop_first().subrange(i - 1, a.drop_first().len() as int) =~= a.subrange(
            i,
            a.len() as int,
        ));
        assert(b.drop_first().subrange(i - 1, b.drop_first().len() as int) =~= b.subrange(
            i,
            b.len() as int,
        ));
        assert(a[0] == b[0]);
        lemma_lex_skip(a.drop_first(), b.drop_first(), i - 1);
    } else {
        assert(a.subrange(0, a.len() as int) =~= a);
        assert(b.subrange(0, b.len() as int) =~= b);
    }
}

/// Compares two character vectors: `-1`, `0` or `1` as `a` is before, equal
/// to, or after `b` in lexicographic order.
pub fn lex_compare(a: &Vec<char>, b: &Vec<char>) -> (r: i8)
    ensures
        r == 0 <==> a@ == b@,
        r < 0 <==> lex_lt(a@, b@),
        r > 0 <==> lex_lt(b@, a@),
        -1 <= r <= 1,
{
    let mut i: usize = 0;
    while i < a.len() && i < b.len() && a[i] == b[i]
        invariant
            0 <= i <= a.len(),
            i <= b.len(),
            forall|j: int| 0 <= j < i ==> a@[j] == b@[j],
        decreases a.len() - i,
    {
        i = i + 1;
    }
    proof {
        lemma_lex_skip(a@, b@, i as int);
        lemma_lex_skip(b@, a@, i as int);
        lemma_lex_irreflexive(a@);
    }
    if i == a.len() && i == b.len() {
        assert(a@ =~= b@);
        0
    } else if i == a.len() {
        proof {
            assert(a@.subrange(i as int, a.len() as int).len() == 0);
            lemma_lex_asym(a@, b@);
        }
        -1
    } else if i == b.len() {
        proof {
            assert(b@.subrange(i as int, b.len() as int).len() == 0);
            lemma_lex_asym(b@, a@);
            assert(a@.len() != b@.len());
        }
        1
    } else {
        let ca = a[i];
        let cb = b[i];
        proof {
            let sa = a@.subrange(i as int, a.len() as int);
            let sb = b@.subrange(i as int, b.len() as int);
            assert(sa[0] == ca && sb[0] == cb);
            assert(a@[i as int] != b@[i as int]);
        }
        let ghost sa = a@.subrange(i as int, a.len() as int);
        let ghost sb = b@.subrange(i as int, b.len() as int);
        assert(lex_lt(sa, sb) == (ca < cb));
        assert(lex_lt(sb, sa) == (cb < ca));
        if ca < cb {
            proof {
                lemma_lex_asym(a@, b@);
            }
            -1
        } else {
            proof {
                lemma_lex_asym(b@, a@);
            }
            1
        }
    }
}

/// Equality of two character vectors.
pub fn chars_equal(a: &Vec<char>, b: &Vec<char>) -> (r: bool)
    ensures
        r == (a@ == b@),
{
    lex_compare(a, b) == 0
}

/// Whether `s` begins with `p`.
pub open spec fn has_prefix(s: Seq<char>, p: Seq<char>) -> bool {
    p.len() <= s.len() && s.take(p.len() as int) == p
}

/// Whether `p` occurs in `s` at position `i`.
pub open spec fn occurs_at(s: Seq<char>, p: Seq<char>, i: int) -> bool {
    0 <= i && i + p.len() <= s.len() && s.subrange(i, i + p.len()) == p
}

/// Whether `p` occurs anywhere in `s` (`str::contains`).
pub open spec fn has_infix(s: Seq<char>, p: Seq<char>) -> bool {
    exists|i: int| occurs_at(s, p, i)
}

pub fn starts_with_chars(s: &Vec<char>, p: &Vec<char>) -> (r: bool)
    ensures
        r == has_prefix(s@, p@),
{
    if p.len() > s.len() {
        return false;
    }
    let mut i: usize = 0;
    while i < p.len()
        invariant
            0 <= i <= p.len() <= s.len(),
            forall|j: int| 0 <= j < i ==> s@[j] == p@[j],
        decreases p.len() - i,
    {
        if s[i] != p[i] {
            assert(s@.take(p.len() as int)[i as int] != p@[i as int]);
            return false;
        }
        i = i + 1;
    }
    assert(s@.take(p.len() as int) =~= p@);
    true
}

fn occurs_at_exec(s: &Vec<char>, p: &Vec<char>, at: usize) -> (r: bool)
    requires
        at + p.len() <= s.len(),
    ensures
        r == occurs_at(s@, p@, at as int),
{
    let mut i: usize = 0;
    while i < p.len()
        invariant
            0 <= i <= p.len(),
            at + p.len() <= s.len(),
            forall|j: int| 0 <= j < i ==> s@[at + j] == p@[j],
        decreases p.len() - i,
    {
        if s[at + i] != p[i] {
            assert(s@.subrange(at as int, at + p.len())[i as int] != p@[i as int]);
            return false;
        }
        i = i + 1;
    }
    assert(s@.subrange(at as int, at + p.len()) =~= p@);
    true
}

/// Whether `p` occurs in `s`, as `str::contains` decides.
pub fn contains_chars(s: &Vec<char>, p: &Vec<char>) -> (r: bool)
    ensures
        r == has_infix(s@, p@),
{
    if p.len() == 0 {
        assert(s@.subrange(0, 0) =~= p@);
        assert(occurs_at(s@, p@, 0));
        return true;
    }
    if p.len() > s.len() {
        return false;
    }
    let last = s.len() - p.len();
    let mut at: usize = 0;
    while at <= last
        invariant
            last + p.len() == s.len(),
            p.len() >= 1,
            0 <= at <= last + 1,
            forall|j: int| 0 <= j < at ==> !occurs_at(s@, p@, j),
        decreases last + 1 - at,
    {
        if occurs_at_exec(s, p, at) {
            return true;
        }
        at = at + 1;
    }
    false
}

// ---------------------------------------------------------------------------
// Conversions between strings and character vectors
// ---------------------------------------------------------------------------
/// Copies the characters of a string slice into a vector.
pub fn chars_of(s: &str) -> (out: Vec<char>)
    ensures
        out@ == s@,
{
    let mut out: Vec<char> = Vec::new();
    for c in it: s.chars()
        invariant
            out@ == it.seq().take(it.index() as int),
    {
        out.push(c);
    }
    out
}

/// `String::push`.
#[verifier::external_body]
pub(crate) fn string_push(s: &mut String, c: char)
    ensures
        final(s)@ == old(s)@.push(c),
{
    s.push(c);
}

/// Builds a `String` holding exactly the given characters.
pub fn string_from_chars(v: &Vec<char>) -> (out: String)
    ensures
        out@ == v@,
{
    let mut out = String::new();
    let mut i: usize = 0;
    while i < v.len()
        invariant
            0 <= i <= v.len(),
            out@ == v@.take(i as int),
        decreases v.len() - i,
    {
        string_push(&mut out, v[i]);
        assert(v@.take(i as int).push(v@[i as int]) =~= v@.take(i + 1));
        i = i + 1;
    }
    assert(v@.take(v.len() as int) =~= v@);
    out
}

// ---------------------------------------------------------------------------
// Decimal numbers
// ---------------------------------------------------------------------------
pub open spec fn is_digit(c: char) -> bool {
    '0' <= c && c <= '9'
}

/// The value of a sequence of decimal digits.
pub open spec fn digits_value(s: Seq<char>) -> nat
    decreases s.len(),
{
    if s.len() == 0 {
        0
    } else {
        digits_value(s.drop_last()) * 10 + ((s.last() as u32) - ('0' as u32)) as nat
    }
}

/// Whether every character of `d` is a decimal digit.
pub open spec fn all_digits(d: Seq<char>) -> bool {
    forall|i: int| 0 <= i < d.len() ==> is_digit(#[trigger] d[i])
}

/// The digits that `u32::from_str` reads: an optional leading `+`, then at
/// least one decimal digit and nothing else.
pub open spec fn unsigned_digits(s: Seq<char>) -> Option<Seq<char>> {
    let d = if s.len() > 0 && s[0] == '+' {
        s.drop_first()
    } else {
        s
    };
    if d.len() > 0 && all_digits(d) {
        Some(d)
    } else {
        None
    }
}

/// `u32::from_str` (`str::parse::<u32>`): `Some` exactly when the text is an
/// optional `+` followed by decimal digits whose value fits in 32 bits.
pub open spec fn parse_u32_spec(s: Seq<char>) -> Option<u32> {
    match unsigned_digits(s) {
        Some(d) => if digits_value(d) <= u32::MAX {
            Some(digits_value(d) as u32)
        } else {
            None
        },
        None => None,
    }
}

pub proof fn lemma_digits_value_push(s: Seq<char>, c: char)
    ensures
        digits_value(s.push(c)) == digits_value(s) * 10 + ((c as u32) - ('0' as u32)) as nat,
{
    assert(s.push(c).drop_last() =~= s);
}

pub proof fn lemma_digits_value_mono(s: Seq<char>, i: int)
    requires
        0 <= i <= s.len(),
        forall|j: int| 0 <= j < s.len() ==> is_digit(#[trigger] s[j]),
    ensures
        digits_value(s.take(i)) <= digits_value(s),
    decreases s.len() - i,
{
    if i < s.len() {
        assert(s.take(i + 1) =~= s.take(i).push(s[i]));
        lemma_digits_value_push(s.take(i), s[i]);
        lemma_digits_value_mono(s, i + 1);
    } else {
        assert(s.take(i) =~= s);
    }
}

/// Parses a decimal `u32` as `str::parse::<u32>` does.
pub fn parse_u32(s: &Vec<char>) -> (r: Option<u32>)
    ensures
        r == parse_u32_spec(s@),
{
    let start: usize = if s.len() > 0 && s[0] == '+' {
        1
    } else {
        0
    };
    let ghost d = if s@.len() > 0 && s@[0] == '+' {
        s@.drop_first()
    } else {
        s@
    };
    assert(d =~= s@.subrange(start as int, s.len() as int));
    if start >= s.len() {
        return None;
    }
    let mut value: u64 = 0;
    let mut i: usize = start;
    while i < s.len()
        invariant
            start <= i <= s.len(),
            d =~= s@.subrange(start as int, s.len() as int),
            d.len() > 0,
            unsigned_digits(s@) == (if all_digits(d) { Some(d) } else { None::<Seq<char>> }),
            forall|j: int| 0 <= j < i - start ==> is_digit(#[trigger] d[j]),
            value == digits_value(d.take(i - start)),
            value <= u32::MAX,
        decreases s.len() - i,
    {
        let c = s[i];
        if !('0' <= c && c <= '9') {
            proof {
                assert(d[i - start] == c);
                assert(!is_digit(d[i - start]));
                assert(!all_digits(d));
            }
            return None;
        }
        proof {
            assert(d.take(i - start + 1) =~= d.take(i - start).push(c));
            lemma_digits_value_push(d.take(i - start), c);
        }
        let digit = (c as u32 - '0' as u32) as u64;
        value = value * 10 + digit;
        if value > 0xFFFF_FFFF {
            proof {
                if all_digits(d) {
                    lemma_digits_value_mono(d, i - start + 1);
                }
            }
            return None;
        }
        i = i + 1;
    }
    assert(d.take(d.len() as int) =~= d);
    Some(value as u32)
}

/// `u64::from_str` (`str::parse::<u64>`): `Some` exactly when the text is an
/// optional `+` followed by decimal digits whose value fits in 64 bits.
pub open spec fn parse_u64_spec(s: Seq<char>) -> Option<u64> {
    match unsigned_digits(s) {
        Some(d) => if digits_value(d) <= u64::MAX {
            Some(digits_value(d) as u64)
        } else {
            None
        },
        None => None,
    }
}

/// Parses a decimal `u64` as `str::parse::<u64>` does.
pub fn parse_u64(s: &Vec<char>) -> (r: Option<u64>)
    ensures
        r == parse_u64_spec(s@),
{
    let start: usize = if s.len() > 0 && s[0] == '+' {
        1
    } else {
        0
    };
    let ghost d = if s@.len() > 0 && s@[0] == '+' {
        s@.drop_first()
    } else {
        s@
    };
    assert(d =~= s@.subrange(start as int, s.len() as int));
    if start >= s.len() {
        return None;
    }
    let mut value: u128 = 0;
    let mut i: usize = start;
    while i < s.len()
        invariant
            start <= i <= s.len(),
            d =~= s@.subrange(start as int, s.len() as int),
            d.len() > 0,
            unsigned_digits(s@) == (if all_digits(d) { Some(d) } else { None::<Seq<char>> }),
            forall|j: int| 0 <= j < i - start ==> is_digit(#[trigger] d[j]),
            value == digits_value(d.take(i - start)),
            value <= u64::MAX,
        decreases s.len() - i,
    {
        let c = s[i];
        if !('0' <= c && c <= '9') {
            proof {
                assert(d[i - start] == c);
                assert(!is_digit(d[i - start]));
                assert(!all_digits(d));
            }
            return None;
        }
        proof {
            assert(d.take(i - start + 1) =~= d.take(i - start).push(c));
            lemma_digits_value_push(d.take(i - start), c);
        }
        let digit = (c as u32 - '0' as u32) as u128;
        value = value * 10 + digit;
        if value > 0xFFFF_FFFF_FFFF_FFFF {
            proof {
                if all_digits(d) {
                    lemma_digits_value_mono(d, i - start + 1);
                }
            }
            return None;
        }
        i = i + 1;
    }
    assert(d.take(d.len() as int) =~= d);
    Some(value as u64)
}

/// Appends the characters of `t` to `s`.
pub fn push_all(s: &mut String, t: &str)
    ensures
        final(s)@ == old(s)@ + t@,
{
    let cs = chars_of(t);
    let mut i: usize = 0;
    while i < cs.len()
        invariant
            0 <= i <= cs.len(),
            cs@ == t@,
            s@ == old(s)@ + cs@.take(i as int),
        decreases cs.len() - i,
    {
        string_push(s, cs[i]);
        assert(cs@.take(i + 1) =~= cs@.take(i as int).push(cs@[i as int]));
        i = i + 1;
    }
    assert(cs@.take(cs.len() as int) =~= cs@);
}

/// `a`, `b` and `c` one after the other.
pub fn concat3(a: &str, b: &str, c: &str) -> (out: String)
    ensures
        out@ == a@ + b@ + c@,
{
    let mut out = String::new();
    push_all(&mut out, a);
    push_all(&mut out, b);
    push_all(&mut out, c);
    assert(out@ =~= a@ + b@ + c@);
    out
}

/// Whether `s` ends with `p`.
pub open spec fn has_suffix(s: Seq<char>, p: Seq<char>) -> bool {
    p.len() <= s.len() && s.subrange(s.len() - p.len(), s.len() as int) == p
}

/// `str::ends_with`.
pub fn ends_with_str(s: &str, p: &str) -> (r: bool)
    ensures
        r == has_suffix(s@, p@),
{
    let sc = chars_of(s);
    let pc = chars_of(p);
    if pc.len() > sc.len() {
        return false;
    }
    let off = sc.len() - pc.len();
    let mut i: usize = 0;
    while i < pc.len()
        invariant
            0 <= i <= pc.len(),
            off + pc.len() == sc.len(),
            sc@ == s@,
            pc@ == p@,
            forall|j: int| 0 <= j < i ==> sc@[off + j] == pc@[j],
        decreases pc.len() - i,
    {
        if sc[off + i] != pc[i] {
            assert(sc@.subrange(off as int, sc.len() as int)[i as int] != pc@[i as int]);
            return false;
        }
        i = i + 1;
    }
    assert(sc@.subrange(off as int, sc.len() as int) =~= pc@);
    true
}

/// `str::contains` on string slices.
pub fn contains_str(s: &str, p: &str) -> (r: bool)
    ensures
        r == has_infix(s@, p@),
{
    let sc = chars_of(s);
    let pc = chars_of(p);
    contains_chars(&sc, &pc)
}

// ---------------------------------------------------------------------------
// Whitespace-separated words
// ---------------------------------------------------------------------------
/// A separator: Unicode whitespace (`str::split_whitespace`) or ASCII
/// whitespace (`str::split_ascii_whitespace`).
pub open spec fn is_sep(c: char, unicode: bool) -> bool {
    if unicode {
        is_unicode_ws(c)
    } else {
        is_ascii_ws(c)
    }
}

pub fn is_sep_exec(c: char, unicode: bool) -> (r: bool)
    ensures
        r == is_sep(c, unicode),
{
    if unicode {
        char_is_whitespace(c)
    } else {
        char_is_ascii_whitespace(c)
    }
}

/// `s` without its leading separators.
pub open spec fn skip_seps(s: Seq<char>, unicode: bool) -> Seq<char>
    decreases s.len(),
{
    if s.len() > 0 && is_sep(s[0], unicode) {
        skip_seps(s.drop_first(), unicode)
    } else {
        s
    }
}

/// The number of leading characters of `s` that are not separators.
pub open spec fn word_len(s: Seq<char>, unicode: bool) -> nat
    decreases s.len(),
{
    if s.len() > 0 && !is_sep(s[0], unicode) {
        1 + word_len(s.drop_first(), unicode)
    } else {
        0
    }
}

/// The words of `s`: the non-empty runs between separators, in order.
pub open spec fn words(s: Seq<char>, unicode: bool) -> Seq<Seq<char>>
    decreases s.len(),
{
    let t = skip_seps(s, unicode);
    if t.len() == 0 {
        Seq::<Seq<char>>::empty()
    } else {
        proof {
            lemma_skip_seps_len(s, unicode);
            lemma_word_len_bounds(t, unicode);
        }
        seq![t.take(word_len(t, unicode) as int)] + words(t.skip(word_len(t, unicode) as int), unicode)
    }
}

pub proof fn lemma_skip_seps_len(s: Seq<char>, unicode: bool)
    ensures
        skip_seps(s, unicode).len() <= s.len(),
        skip_seps(s, unicode).len() > 0 ==> !is_sep(skip_seps(s, unicode)[0], unicode),
    decreases s.len(),
{
    if s.len() > 0 && is_sep(s[0], unicode) {
        lemma_skip_seps_len(s.drop_first(), unicode);
    }
}

pub proof fn lemma_word_len_bounds(s: Seq<char>, unicode: bool)
    ensures
        word_len(s, unicode) <= s.len(),
        s.len() > 0 && !is_sep(s[0], unicode) ==> word_len(s, unicode) >= 1,
    decreases s.len(),
{
    if s.len() > 0 && !is_sep(s[0], unicode) {
        lemma_word_len_bounds(s.drop_first(), unicode);
    }
}

/// Splits `s` into its words, as `split_whitespace` (`unicode`) or
/// `split_ascii_whitespace` does.
pub fn split_words(s: &Vec<char>, unicode: bool) -> (out: Vec<Vec<char>>)
    ensures
        out.deep_view() == words(s@, unicode),
{
    let n = s.len();
    let mut out: Vec<Vec<char>> = Vec::new();
    let mut i: usize = 0;
    assert(s@.skip(0) =~= s@);
    assert(out.deep_view() + words(s@.skip(0), unicode) =~= words(s@, unicode));
    while i < n
        invariant
            0 <= i <= n == s.len(),
            out.deep_view() + words(s@.skip(i as int), unicode) == words(s@, unicode),
        decreases n - i,
    {
        let mut j: usize = i;
        while j < n && is_sep_exec(s[j], unicode)
            invariant
                i <= j <= n == s.len(),
                skip_seps(s@.skip(i as int), unicode) == skip_seps(s@.skip(j as int), unicode),
            decreases n - j,
        {
            assert(s@.skip(j as int).drop_first() =~= s@.skip(j + 1));
            j = j + 1;
        }
        if j == n {
            assert(s@.skip(j as int).len() == 0);
            assert(words(s@.skip(i as int), unicode).len() == 0);
            assert(out.deep_view() =~= words(s@, unicode));
            i = n;
        } else {
            assert(skip_seps(s@.skip(j as int), unicode) == s@.skip(j as int));
            let mut k: usize = j;
            while k < n && !is_sep_exec(s[k], unicode)
                invariant
                    j <= k <= n == s.len(),
                    word_len(s@.skip(j as int), unicode) == (k - j) + word_len(
                        s@.skip(k as int),
                        unicode,
                    ),
                decreases n - k,
            {
                assert(s@.skip(k as int).drop_first() =~= s@.skip(k + 1));
                k = k + 1;
            }
            let ghost t = s@.skip(j as int);
            assert(word_len(t, unicode) == k - j);
            assert(t.take(k - j) =~= s@.subrange(j as int, k as int));
            assert(t.skip(k - j) =~= s@.skip(k as int));
            let w = copy_range(s, j, k);
            let ghost before = out.deep_view();
            let ghost before_v = out@;
            out.push(w);
            assert(out.deep_view() =~= before.push(s@.subrange(j as int, k as int))) by {
                assert forall|x: int| 0 <= x < out.len() implies out.deep_view()[x]
                    == before.push(s@.subrange(j as int, k as int))[x] by {
                    if x < before.len() {
                        assert(out@[x] == before_v[x]);
                    }
                }
            }
            assert(out.deep_view() + words(s@.skip(k as int), unicode) =~= before + words(
                s@.skip(i as int),
                unicode,
            ));
            i = k;
        }
    }
    assert(s@.skip(n as int).len() == 0);
    assert(out.deep_view() =~= words(s@, unicode));
    out
}

} // verus!
