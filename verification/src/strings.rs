//! Character-sequence helpers shared by the other modules.
//!
//! Strings are reasoned about through their view, a `Seq<char>`.  The
//! functions here give the few text operations the server needs (prefix
//! tests, substring search, splitting on a separator, trimming, decimal
//! rendering) with contracts over plain sequences.

use vstd::prelude::*;

verus! {

broadcast use vstd::string::group_string_axioms;

// ---------------------------------------------------------------------
// Specifications
// ---------------------------------------------------------------------

/// `p` is a prefix of `s`.
pub open spec fn has_prefix(s: Seq<char>, p: Seq<char>) -> bool {
    p.len() <= s.len() && s.take(p.len() as int) == p
}

/// `p` occurs in `s` at position `i`.
pub open spec fn occurs_at(s: Seq<char>, p: Seq<char>, i: int) -> bool {
    0 <= i && i + p.len() <= s.len() && s.subrange(i, i + p.len()) == p
}

/// `p` occurs somewhere in `s`.
pub open spec fn contains_seq(s: Seq<char>, p: Seq<char>) -> bool {
    exists|i: int| #[trigger] occurs_at(s, p, i)
}

/// The pieces of `s` between occurrences of `sep`, as `str::split` with a
/// `char` pattern yields them: there is always at least one piece, and
/// two adjacent separators give an empty piece.
pub open spec fn split_char(s: Seq<char>, sep: char) -> Seq<Seq<char>>
    decreases s.len(),
{
    if s.len() == 0 {
        seq![Seq::<char>::empty()]
    } else {
        let init = split_char(s.drop_last(), sep);
        if s.last() == sep {
            init.push(Seq::<char>::empty())
        } else {
            init.update(init.len() - 1, init.last().push(s.last()))
        }
    }
}

/// The character for a decimal digit.
pub open spec fn digit_char(d: nat) -> char {
    if d == 0 { '0' }
    else if d == 1 { '1' }
    else if d == 2 { '2' }
    else if d == 3 { '3' }
    else if d == 4 { '4' }
    else if d == 5 { '5' }
    else if d == 6 { '6' }
    else if d == 7 { '7' }
    else if d == 8 { '8' }
    else { '9' }
}

/// The decimal rendering of `n`, without sign or leading zeros.
pub open spec fn decimal(n: nat) -> Seq<char>
    decreases n,
{
    if n < 10 {
        seq![digit_char(n)]
    } else {
        decimal(n / 10).push(digit_char(n % 10))
    }
}

/// Whether `c` is an ASCII decimal digit.
pub open spec fn is_digit(c: char) -> bool {
    '0' <= c && c <= '9'
}

/// The value of an ASCII decimal digit.
pub open spec fn digit_value(c: char) -> nat {
    (c as int - '0' as int) as nat
}

/// The number a string of decimal digits denotes.
pub open spec fn digits_value(s: Seq<char>) -> nat
    decreases s.len(),
{
    if s.len() == 0 {
        0
    } else {
        digits_value(s.drop_last()) * 10 + digit_value(s.last())
    }
}

/// Whether `c` has Unicode's White_Space property, as `char::is_whitespace`
/// reports it: the ASCII tab, line feed, vertical tab, form feed, carriage
/// return and space, next line, no-break space, the Ogham space mark, the
/// spaces U+2000 to U+200A, the line and paragraph separators, the narrow
/// no-break space, the medium mathematical space and the ideographic
/// space.
pub open spec fn unicode_whitespace(c: char) -> bool {
    let n = c as u32;
    ||| 0x09 <= n <= 0x0D
    ||| n == 0x20
    ||| n == 0x85
    ||| n == 0xA0
    ||| n == 0x1680
    ||| 0x2000 <= n <= 0x200A
    ||| n == 0x2028
    ||| n == 0x2029
    ||| n == 0x202F
    ||| n == 0x205F
    ||| n == 0x3000
}

/// Whether `c` is alphabetic or numeric in Unicode's sense, as
/// `char::is_alphanumeric` reports it.
pub uninterp spec fn unicode_alphanumeric(c: char) -> bool;

/// `s` without its leading White_Space characters.
pub open spec fn trim_start(s: Seq<char>) -> Seq<char>
    decreases s.len(),
{
    if s.len() > 0 && unicode_whitespace(s[0]) {
        trim_start(s.drop_first())
    } else {
        s
    }
}

/// `s` without its trailing White_Space characters.
pub open spec fn trim_end(s: Seq<char>) -> Seq<char>
    decreases s.len(),
{
    if s.len() > 0 && unicode_whitespace(s.last()) {
        trim_end(s.drop_last())
    } else {
        s
    }
}

/// `s` without leading and trailing White_Space characters, as `str::trim`.
pub open spec fn trim(s: Seq<char>) -> Seq<char> {
    trim_end(trim_start(s))
}

// ---------------------------------------------------------------------
// Trusted std calls
// ---------------------------------------------------------------------

/// `String::push`: appends one character to the end of the string.
#[verifier::external_body]
pub(crate) fn push_char(s: &mut String, c: char)
    ensures
        final(s)@ == old(s)@.push(c),
{
    s.push(c);
}

/// Whether `c` is White_Space (see `unicode_whitespace`), as
/// `char::is_whitespace` answers.
pub(crate) fn is_whitespace(c: char) -> (b: bool)
    ensures
        b == unicode_whitespace(c),
{
    let n = c as u32;
    (0x09 <= n && n <= 0x0D) || n == 0x20 || n == 0x85 || n == 0xA0 || n == 0x1680 || (0x2000 <= n && n
        <= 0x200A) || n == 0x2028 || n == 0x2029 || n == 0x202F || n == 0x205F || n == 0x3000
}

/// `char::is_alphanumeric`; its result is named `unicode_alphanumeric`.
#[verifier::external_body]
pub(crate) fn is_alphanumeric(c: char) -> (b: bool)
    ensures
        b == unicode_alphanumeric(c),
{
    c.is_alphanumeric()
}

// ---------------------------------------------------------------------
// Lemmas
// ---------------------------------------------------------------------

/// `split_char` never yields an empty list of pieces.
pub proof fn lemma_split_char_nonempty(s: Seq<char>, sep: char)
    ensures
        split_char(s, sep).len() >= 1,
    decreases s.len(),
{
    if s.len() > 0 {
        lemma_split_char_nonempty(s.drop_last(), sep);
    }
}

/// A string without the separator is a single piece.
pub proof fn lemma_split_char_no_sep(s: Seq<char>, sep: char)
    requires
        !s.contains(sep),
    ensures
        split_char(s, sep) == seq![s],
    decreases s.len(),
{
    if s.len() == 0 {
        assert(s =~= Seq::<char>::empty());
    } else {
        assert(!s.drop_last().contains(sep)) by {
            if s.drop_last().contains(sep) {
                let k = choose|k: int| 0 <= k < s.drop_last().len() && s.drop_last()[k] == sep;
                assert(s[k] == sep);
            }
        }
        lemma_split_char_no_sep(s.drop_last(), sep);
        assert(s.last() != sep) by {
            assert(s[s.len() - 1] == s.last());
        }
        assert(s.drop_last().push(s.last()) =~= s);
        assert(seq![s.drop_last()].update(0, s.drop_last().push(s.last())) =~= seq![s]);
    }
}

// ---------------------------------------------------------------------
// Executable helpers
// ---------------------------------------------------------------------

/// The characters of `s`, in order.
pub fn chars_of(s: &str) -> (v: Vec<char>)
    ensures
        v@ == s@,
{
    let mut v: Vec<char> = Vec::new();
    for c in it: s.chars()
        invariant
            v@ == it.seq().take(it.index()),
    {
        v.push(c);
    }
    v
}

/// A `String` holding the characters of `v`.
pub fn string_from_chars(v: &[char]) -> (s: String)
    ensures
        s@ == v@,
{
    let mut s = String::new();
    let mut i: usize = 0;
    while i < v.len()
        invariant
            i <= v@.len(),
            s@ == v@.take(i as int),
        decreases v@.len() - i,
    {
        push_char(&mut s, v[i]);
        assert(v@.take(i as int).push(v@[i as int]) =~= v@.take(i + 1));
        i = i + 1;
    }
    assert(v@.take(v@.len() as int) =~= v@);
    s
}

/// An owned copy of `s`.
pub fn owned(s: &str) -> (r: String)
    ensures
        r@ == s@,
{
    s.to_owned()
}

/// The concatenation of `a` and `b`.
pub fn concat(a: &str, b: &str) -> (r: String)
    ensures
        r@ == a@ + b@,
{
    let mut r = a.to_owned();
    for c in it: b.chars()
        invariant
            r@ == a@ + it.seq().take(it.index()),
    {
        push_char(&mut r, c);
        assert(a@ + it.seq().take(it.index()) + seq![c] =~= a@ + it.seq().take(it.index() + 1));
    }
    assert(b@.take(b@.len() as int) =~= b@);
    r
}

/// The concatenation of `a`, `b` and `c`.
pub fn concat3(a: &str, b: &str, c: &str) -> (r: String)
    ensures
        r@ == a@ + b@ + c@,
{
    let ab = concat(a, b);
    concat(ab.as_str(), c)
}

/// Whether two character sequences are equal.
pub fn seq_eq(a: &[char], b: &[char]) -> (r: bool)
    ensures
        r == (a@ == b@),
{
    if a.len() != b.len() {
        return false;
    }
    let mut i: usize = 0;
    while i < a.len()
        invariant
            a@.len() == b@.len(),
            i <= a@.len(),
            forall|k: int| 0 <= k < i ==> a@[k] == b@[k],
        decreases a@.len() - i,
    {
        if a[i] != b[i] {
            return false;
        }
        i = i + 1;
    }
    assert(a@ =~= b@);
    true
}

/// Whether two strings hold the same characters.
pub fn str_eq(a: &str, b: &str) -> (r: bool)
    ensures
        r == (a@ == b@),
{
    let va = chars_of(a);
    let vb = chars_of(b);
    seq_eq(va.as_slice(), vb.as_slice())
}

/// Whether `p` occurs in `s` at position `i`.
pub fn matches_at(s: &[char], p: &[char], i: usize) -> (r: bool)
    ensures
        r == occurs_at(s@, p@, i as int),
{
    if i > s.len() || p.len() > s.len() - i {
        return false;
    }
    let n = s.len();
    let mut k: usize = 0;
    while k < p.len()
        invariant
            n == s@.len(),
            i + p@.len() <= s@.len(),
            k <= p@.len(),
            forall|j: int| 0 <= j < k ==> s@[i + j] == p@[j],
        decreases p@.len() - k,
    {
        assert(i + k < n);
        if s[i + k] != p[k] {
            assert(s@.subrange(i as int, i + p@.len())[k as int] != p@[k as int]);
            return false;
        }
        k = k + 1;
    }
    assert(s@.subrange(i as int, i + p@.len()) =~= p@);
    true
}

/// Whether `p` is a prefix of `s`.
pub fn seq_has_prefix(s: &[char], p: &[char]) -> (r: bool)
    ensures
        r == has_prefix(s@, p@),
{
    let r = matches_at(s, p, 0);
    assert(s@.subrange(0, p@.len() as int) == s@.take(p@.len() as int));
    r
}

/// Whether `p` occurs anywhere in `s`.
pub fn seq_contains(s: &[char], p: &[char]) -> (r: bool)
    ensures
        r == contains_seq(s@, p@),
{
    if p.len() > s.len() {
        assert(forall|i: int| !occurs_at(s@, p@, i));
        return false;
    }
    let last = s.len() - p.len();
    let mut i: usize = 0;
    loop
        invariant
            last == s@.len() - p@.len(),
            i <= last,
            forall|j: int| 0 <= j < i ==> !#[trigger] occurs_at(s@, p@, j),
        decreases last - i,
    {
        if matches_at(s, p, i) {
            return true;
        }
        if i == last {
            assert forall|j: int| !#[trigger] occurs_at(s@, p@, j) by {
                if 0 <= j && j + p@.len() <= s@.len() {
                    assert(j <= last);
                }
            }
            return false;
        }
        i = i + 1;
    }
}

/// Whether the string `s` starts with `p`.
pub fn str_has_prefix(s: &str, p: &str) -> (r: bool)
    ensures
        r == has_prefix(s@, p@),
{
    let vs = chars_of(s);
    let vp = chars_of(p);
    seq_has_prefix(vs.as_slice(), vp.as_slice())
}

/// Whether the string `p` occurs in the string `s`.
pub fn str_contains(s: &str, p: &str) -> (r: bool)
    ensures
        r == contains_seq(s@, p@),
{
    let vs = chars_of(s);
    let vp = chars_of(p);
    seq_contains(vs.as_slice(), vp.as_slice())
}

/// `s` without the prefix `p`, when `s` starts with `p`.
pub fn str_strip_prefix(s: &str, p: &str) -> (r: Option<String>)
    ensures
        match r {
            Some(rest) => has_prefix(s@, p@) && rest@ == s@.skip(p@.len() as int),
            None => !has_prefix(s@, p@),
        },
{
    let vs = chars_of(s);
    let vp = chars_of(p);
    if seq_has_prefix(vs.as_slice(), vp.as_slice()) {
        let rest = slice_string(vs.as_slice(), vp.len(), vs.len());
        Some(rest)
    } else {
        None
    }
}

/// The characters of `v` from `start` up to `end`, as a `String`.
pub fn slice_string(v: &[char], start: usize, end: usize) -> (s: String)
    requires
        start <= end <= v@.len(),
    ensures
        s@ == v@.subrange(start as int, end as int),
{
    let mut s = String::new();
    let mut i: usize = start;
    while i < end
        invariant
            start <= i <= end,
            end <= v@.len(),
            s@ == v@.subrange(start as int, i as int),
        decreases end - i,
    {
        push_char(&mut s, v[i]);
        assert(v@.subrange(start as int, i as int).push(v@[i as int]) =~= v@.subrange(
            start as int,
            i + 1,
        ));
        i = i + 1;
    }
    s
}

/// The pieces of `v` between occurrences of `sep` (see `split_char`).
pub fn split_on(v: &[char], sep: char) -> (pieces: Vec<Vec<char>>)
    ensures
        pieces@.len() == split_char(v@, sep).len(),
        forall|k: int| 0 <= k < pieces@.len() ==> #[trigger] pieces@[k]@ == split_char(v@, sep)[k],
{
    let mut pieces: Vec<Vec<char>> = Vec::new();
    pieces.push(Vec::new());
    let mut i: usize = 0;
    assert(v@.take(0) =~= Seq::<char>::empty());
    while i < v.len()
        invariant
            i <= v@.len(),
            pieces@.len() == split_char(v@.take(i as int), sep).len(),
            pieces@.len() >= 1,
            forall|k: int|
                0 <= k < pieces@.len() ==> #[trigger] pieces@[k]@ == split_char(
                    v@.take(i as int),
                    sep,
                )[k],
        decreases v@.len() - i,
    {
        let c = v[i];
        let ghost prev = v@.take(i as int);
        let ghost next = v@.take(i + 1);
        assert(next.drop_last() =~= prev);
        assert(next.last() == c);
        if c == sep {
            pieces.push(Vec::new());
        } else {
            let last = pieces.len() - 1;
            let mut piece = pieces.pop().unwrap();
            piece.push(c);
            pieces.push(piece);
            assert(pieces@.len() == split_char(next, sep).len());
            assert forall|k: int| 0 <= k < pieces@.len() implies #[trigger] pieces@[k]@
                == split_char(next, sep)[k] by {
                if k == last {
                } else {
                }
            }
        }
        i = i + 1;
    }
    assert(v@.take(v@.len() as int) =~= v@);
    pieces
}

/// `v` without its leading and trailing White_Space characters.
pub fn trim_chars(v: &[char]) -> (r: Vec<char>)
    ensures
        r@ == trim(v@),
{
    let mut start: usize = 0;
    assert(v@.skip(0) =~= v@);
    while start < v.len() && is_whitespace(v[start])
        invariant
            start <= v@.len(),
            trim_start(v@) == trim_start(v@.skip(start as int)),
        decreases v@.len() - start,
    {
        assert(v@.skip(start as int).drop_first() =~= v@.skip(start + 1));
        start = start + 1;
    }
    assert(trim_start(v@.skip(start as int)) == v@.skip(start as int));
    let mut end: usize = v.len();
    while end > start && is_whitespace(v[end - 1])
        invariant
            start <= end <= v@.len(),
            trim(v@) == trim_end(v@.subrange(start as int, end as int)),
        decreases end,
    {
        assert(v@.subrange(start as int, end as int).drop_last() =~= v@.subrange(
            start as int,
            end - 1,
        ));
        assert(v@.subrange(start as int, end as int).last() == v@[end - 1]);
        end = end - 1;
    }
    let mut r: Vec<char> = Vec::new();
    let mut i: usize = start;
    while i < end
        invariant
            start <= i <= end,
            end <= v@.len(),
            r@ == v@.subrange(start as int, i as int),
        decreases end - i,
    {
        r.push(v[i]);
        assert(v@.subrange(start as int, i as int).push(v@[i as int]) =~= v@.subrange(
            start as int,
            i + 1,
        ));
        i = i + 1;
    }
    r
}

/// The decimal rendering of `n`.
pub fn decimal_string(n: u64) -> (s: String)
    ensures
        s@ == decimal(n as nat),
    decreases n,
{
    if n < 10 {
        let mut s = String::new();
        push_char(&mut s, digit_to_char(n));
        s
    } else {
        let mut s = decimal_string(n / 10);
        push_char(&mut s, digit_to_char(n % 10));
        s
    }
}

/// The character for the digit `d`.
pub fn digit_to_char(d: u64) -> (c: char)
    requires
        d < 10,
    ensures
        c == digit_char(d as nat),
{
    if d == 0 { '0' }
    else if d == 1 { '1' }
    else if d == 2 { '2' }
    else if d == 3 { '3' }
    else if d == 4 { '4' }
    else if d == 5 { '5' }
    else if d == 6 { '6' }
    else if d == 7 { '7' }
    else if d == 8 { '8' }
    else { '9' }
}


/// An exact copy of an optional string.
pub fn clone_opt(o: &Option<String>) -> (r: Option<String>)
    ensures
        r == *o,
{
    match o {
        Some(s) => Some(s.clone()),
        None => None,
    }
}

/// The number of bytes UTF-8 uses for `c`.
pub open spec fn utf8_width(c: char) -> nat {
    if (c as u32) < 0x80 {
        1
    } else if (c as u32) < 0x800 {
        2
    } else if (c as u32) < 0x10000 {
        3
    } else {
        4
    }
}

/// The number of bytes UTF-8 uses for `s`.
pub open spec fn utf8_length(s: Seq<char>) -> nat
    decreases s.len(),
{
    if s.len() == 0 {
        0
    } else {
        utf8_length(s.drop_last()) + utf8_width(s.last())
    }
}

/// UTF-8 uses at most four bytes for a character.
pub proof fn lemma_utf8_length_bound(s: Seq<char>)
    ensures
        utf8_length(s) <= 4 * s.len(),
    decreases s.len(),
{
    if s.len() > 0 {
        lemma_utf8_length_bound(s.drop_last());
    }
}

/// How many leading characters of `s` fit, whole, in `limit` bytes.
pub open spec fn chars_within(s: Seq<char>, limit: int) -> nat
    decreases s.len(),
{
    if s.len() == 0 || utf8_width(s[0]) > limit {
        0
    } else {
        1 + chars_within(s.drop_first(), limit - utf8_width(s[0]))
    }
}

/// The number of bytes UTF-8 uses for `c`.
pub fn char_utf8_width(c: char) -> (w: usize)
    ensures
        w == utf8_width(c),
{
    let v = c as u32;
    if v < 0x80 {
        1
    } else if v < 0x800 {
        2
    } else if v < 0x10000 {
        3
    } else {
        4
    }
}

/// The leading characters of `v` that fit, whole, in `limit` bytes, and
/// their byte count.
pub fn prefix_within(v: &[char], limit: usize) -> (r: (usize, usize))
    ensures
        r.0 == chars_within(v@, limit as int),
        r.0 <= v@.len(),
        r.1 == utf8_length(v@.take(r.0 as int)),
        r.1 <= limit,
{
    let mut n: usize = 0;
    let mut used: usize = 0;
    assert(v@.skip(0) =~= v@);
    assert(v@.take(0) =~= Seq::<char>::empty());
    while n < v.len() && char_utf8_width(v[n]) <= limit - used
        invariant
            n <= v@.len(),
            used <= limit,
            used == utf8_length(v@.take(n as int)),
            chars_within(v@, limit as int) == n + chars_within(v@.skip(n as int), limit - used),
        decreases v@.len() - n,
    {
        let w = char_utf8_width(v[n]);
        assert(v@.skip(n as int)[0] == v@[n as int]);
        assert(v@.skip(n as int).drop_first() =~= v@.skip(n + 1));
        assert(v@.take(n + 1).drop_last() =~= v@.take(n as int));
        assert(v@.take(n + 1).last() == v@[n as int]);
        used = used + w;
        n = n + 1;
    }
    if n < v.len() {
        assert(v@.skip(n as int)[0] == v@[n as int]);
    } else {
        assert(v@.skip(n as int).len() == 0);
    }
    (n, used)
}


/// A prefix of `s` takes no more bytes than `s`.
pub proof fn lemma_utf8_length_prefix(s: Seq<char>, i: int)
    requires
        0 <= i <= s.len(),
    ensures
        utf8_length(s.take(i)) <= utf8_length(s),
    decreases s.len(),
{
    if i < s.len() {
        lemma_utf8_length_prefix(s.drop_last(), i);
        assert(s.drop_last().take(i) =~= s.take(i));
    } else {
        assert(s.take(i) =~= s);
    }
}

/// Whether `s` takes fewer than `limit` bytes in UTF-8 (`s.len() < limit`).
pub fn utf8_len_below(s: &str, limit: usize) -> (b: bool)
    ensures
        b == (utf8_length(s@) < limit),
{
    if limit == 0 {
        return false;
    }
    let v = chars_of(s);
    let mut used: usize = 0;
    let mut i: usize = 0;
    assert(v@.take(0) =~= Seq::<char>::empty());
    while i < v.len()
        invariant
            v@ == s@,
            i <= v@.len(),
            used == utf8_length(v@.take(i as int)),
            used < limit,
        decreases v@.len() - i,
    {
        let w = char_utf8_width(v[i]);
        assert(v@.take(i + 1).drop_last() =~= v@.take(i as int));
        assert(v@.take(i + 1).last() == v@[i as int]);
        if w >= limit - used {
            proof {
                lemma_utf8_length_prefix(v@, i + 1);
            }
            return false;
        }
        used = used + w;
        i = i + 1;
    }
    assert(v@.take(i as int) =~= v@);
    true
}

} // verus!
