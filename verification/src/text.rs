//! Text operations that the configuration format rests on: comparing, trimming,
//! splitting at a separator and reading a decimal integer.

use vstd::prelude::*;

verus! {

/// The characters with the Unicode `White_Space` property.
pub open spec fn is_white_space(c: char) -> bool {
    let v = c as u32;
    ||| 0x9 <= v <= 0xd
    ||| v == 0x20
    ||| v == 0x85
    ||| v == 0xa0
    ||| v == 0x1680
    ||| 0x2000 <= v <= 0x200a
    ||| v == 0x2028
    ||| v == 0x2029
    ||| v == 0x202f
    ||| v == 0x205f
    ||| v == 0x3000
}

/// `s` without its leading white space.
pub open spec fn trim_start(s: Seq<char>) -> Seq<char>
    decreases s.len(),
{
    if s.len() > 0 && is_white_space(s[0]) {
        trim_start(s.drop_first())
    } else {
        s
    }
}

/// `s` without its trailing white space.
pub open spec fn trim_end(s: Seq<char>) -> Seq<char>
    decreases s.len(),
{
    if s.len() > 0 && is_white_space(s.last()) {
        trim_end(s.drop_last())
    } else {
        s
    }
}

/// `s` without leading and trailing white space, as `str::trim` gives it.
pub open spec fn trimmed(s: Seq<char>) -> Seq<char> {
    trim_end(trim_start(s))
}

/// A text that neither starts nor ends with white space is its own trimmed form.
pub proof fn lemma_trimmed_plain(s: Seq<char>)
    requires
        s.len() > 0,
        !is_white_space(s[0]),
        !is_white_space(s.last()),
    ensures
        trimmed(s) == s,
{
    assert(trim_start(s) == s);
    assert(trim_end(s) == s);
}

/// Whether every character of `s` is white space.
pub open spec fn all_white(s: Seq<char>) -> bool {
    forall|i: int| 0 <= i < s.len() ==> is_white_space(#[trigger] s[i])
}

/// Leading white space is dropped whatever follows it.
proof fn lemma_trim_start_pad(a: Seq<char>, x: Seq<char>)
    requires
        all_white(a),
    ensures
        trim_start(a + x) == trim_start(x),
    decreases a.len(),
{
    if a.len() > 0 {
        assert((a + x)[0] == a[0]);
        assert((a + x).drop_first() =~= a.drop_first() + x);
        lemma_trim_start_pad(a.drop_first(), x);
    } else {
        assert(a + x =~= x);
    }
}

/// Trailing white space is dropped whatever precedes it.
proof fn lemma_trim_end_pad(x: Seq<char>, b: Seq<char>)
    requires
        all_white(b),
    ensures
        trim_end(x + b) == trim_end(x),
    decreases b.len(),
{
    if b.len() > 0 {
        assert((x + b).last() == b.last());
        assert((x + b).drop_last() =~= x + b.drop_last());
        lemma_trim_end_pad(x, b.drop_last());
    } else {
        assert(x + b =~= x);
    }
}

/// A text of white space only trims to nothing from the front.
proof fn lemma_trim_start_white(s: Seq<char>)
    requires
        all_white(s),
    ensures
        trim_start(s) == Seq::<char>::empty(),
    decreases s.len(),
{
    if s.len() > 0 {
        lemma_trim_start_white(s.drop_first());
    }
}

/// Trimming the front of a text that holds a character other than white space keeps what
/// follows it.
proof fn lemma_trim_start_keeps_tail(x: Seq<char>, b: Seq<char>)
    requires
        !all_white(x),
    ensures
        trim_start(x + b) == trim_start(x) + b,
    decreases x.len(),
{
    if x.len() > 0 && is_white_space(x[0]) {
        assert((x + b).drop_first() =~= x.drop_first() + b);
        assert(!all_white(x.drop_first())) by {
            let i = choose|i: int| 0 <= i < x.len() && !is_white_space(x[i]);
            assert(x.drop_first()[i - 1] == x[i]);
        }
        lemma_trim_start_keeps_tail(x.drop_first(), b);
    } else {
        assert(x.len() > 0);
        assert((x + b)[0] == x[0]);
    }
}

/// White space around a text does not change its trimmed form.
pub proof fn lemma_trimmed_pad(a: Seq<char>, s: Seq<char>, b: Seq<char>)
    requires
        all_white(a),
        all_white(b),
    ensures
        trimmed(a + s + b) == trimmed(s),
{
    assert(a + s + b =~= a + (s + b));
    lemma_trim_start_pad(a, s + b);
    if all_white(s) {
        assert(all_white(s + b)) by {
            assert forall|i: int| 0 <= i < (s + b).len() implies is_white_space(#[trigger] (s + b)[i]) by {
                if i < s.len() {
                    assert((s + b)[i] == s[i]);
                } else {
                    assert((s + b)[i] == b[i - s.len()]);
                }
            }
        }
        lemma_trim_start_white(s + b);
        lemma_trim_start_white(s);
    } else {
        lemma_trim_start_keeps_tail(s, b);
        lemma_trim_end_pad(trim_start(s), b);
    }
}

/// `trim_end` keeps a front part of the text.
proof fn lemma_trim_end_prefix(y: Seq<char>)
    ensures
        trim_end(y).len() <= y.len(),
        forall|i: int| 0 <= i < trim_end(y).len() ==> #[trigger] trim_end(y)[i] == y[i],
        trim_end(y).len() > 0 ==> !is_white_space(trim_end(y).last()),
    decreases y.len(),
{
    if y.len() > 0 && is_white_space(y.last()) {
        lemma_trim_end_prefix(y.drop_last());
    }
}

/// `trim_start` leaves a text that does not start with white space.
proof fn lemma_trim_start_first(s: Seq<char>)
    ensures
        trim_start(s).len() > 0 ==> !is_white_space(trim_start(s)[0]),
    decreases s.len(),
{
    if s.len() > 0 && is_white_space(s[0]) {
        lemma_trim_start_first(s.drop_first());
    }
}

/// Trimming a trimmed text changes nothing.
pub proof fn lemma_trimmed_idempotent(s: Seq<char>)
    ensures
        trimmed(trimmed(s)) == trimmed(s),
{
    let x = trim_start(s);
    lemma_trim_start_first(s);
    lemma_trim_end_prefix(x);
    let t = trimmed(s);
    if t.len() > 0 {
        assert(t[0] == x[0]);
        lemma_trimmed_plain(t);
    } else {
        assert(trimmed(t) =~= t);
    }
}

/// Whether `sep` occurs in `s` at position `j`.
pub open spec fn matches_at(s: Seq<char>, sep: Seq<char>, j: int) -> bool {
    0 <= j && j + sep.len() <= s.len() && s.subrange(j, j + sep.len()) == sep
}

/// The first position at or after `from` where `sep` occurs in `s`.
pub open spec fn next_match(s: Seq<char>, sep: Seq<char>, from: int) -> Option<int>
    decreases s.len() + 1 - from,
{
    if from < 0 || from + sep.len() > s.len() {
        None
    } else if matches_at(s, sep, from) {
        Some(from)
    } else {
        next_match(s, sep, from + 1)
    }
}

/// The pieces of `s` from `start` on, cut at each occurrence of the separator `sep`.
pub open spec fn split_from(s: Seq<char>, sep: Seq<char>, start: int) -> Seq<Seq<char>>
    decreases s.len() - start,
{
    if sep.len() == 0 || start < 0 || start > s.len() {
        seq![]
    } else {
        match next_match(s, sep, start) {
            Some(j) => {
                proof {
                    lemma_next_match(s, sep, start);
                }
                seq![s.subrange(start, j)] + split_from(s, sep, j + sep.len())
            },
            None => seq![s.subrange(start, s.len() as int)],
        }
    }
}

/// The pieces of `s` cut at each occurrence of `sep`, as `str::split` gives them.
pub open spec fn split(s: Seq<char>, sep: Seq<char>) -> Seq<Seq<char>> {
    split_from(s, sep, 0)
}

/// The contents of a sequence of strings.
pub open spec fn texts(v: Seq<String>) -> Seq<Seq<char>> {
    v.map_values(|t: String| t@)
}

/// A match found by `next_match` is a match, the first one from `from` on.
pub proof fn lemma_next_match(s: Seq<char>, sep: Seq<char>, from: int)
    requires
        0 <= from,
    ensures
        match next_match(s, sep, from) {
            Some(j) => from <= j && matches_at(s, sep, j) && forall|k: int|
                from <= k < j ==> !matches_at(s, sep, k),
            None => forall|k: int| from <= k ==> !matches_at(s, sep, k),
        },
    decreases s.len() + 1 - from,
{
    if from < 0 || from + sep.len() > s.len() {
    } else if matches_at(s, sep, from) {
    } else {
        lemma_next_match(s, sep, from + 1);
    }
}

/// Looking for `sep` in `p + t` from a position past `p` finds what looking in `t` finds,
/// moved by the length of `p`.
pub proof fn lemma_next_match_shift(p: Seq<char>, t: Seq<char>, sep: Seq<char>, i: int)
    requires
        0 <= i,
    ensures
        next_match(p + t, sep, p.len() + i) == match next_match(t, sep, i) {
            Some(j) => Some(j + p.len()),
            None => None,
        },
    decreases t.len() + 1 - i,
{
    let s = p + t;
    if i + sep.len() > t.len() {
    } else {
        assert(s.subrange(p.len() + i, p.len() + i + sep.len()) =~= t.subrange(i, i + sep.len()));
        if !matches_at(t, sep, i) {
            lemma_next_match_shift(p, t, sep, i + 1);
        }
    }
}

/// Cutting `p + t` from a position past `p` cuts `t` alone.
pub proof fn lemma_split_from_shift(p: Seq<char>, t: Seq<char>, sep: Seq<char>, i: int)
    requires
        0 <= i <= t.len(),
    ensures
        split_from(p + t, sep, p.len() + i) == split_from(t, sep, i),
    decreases t.len() - i,
{
    if sep.len() > 0 {
        lemma_next_match_shift(p, t, sep, i);
        lemma_next_match(t, sep, i);
        match next_match(t, sep, i) {
            Some(j) => {
                assert((p + t).subrange(p.len() + i, p.len() + j) =~= t.subrange(i, j));
                lemma_split_from_shift(p, t, sep, j + sep.len());
            },
            None => {
                assert((p + t).subrange(p.len() + i, (p + t).len() as int) =~= t.subrange(
                    i,
                    t.len() as int,
                ));
            },
        }
    }
}

/// A text in which the separator's first character does not occur is one piece.
pub proof fn lemma_split_whole(s: Seq<char>, sep: Seq<char>)
    requires
        sep.len() > 0,
        forall|i: int| 0 <= i < s.len() ==> s[i] != sep[0],
    ensures
        split(s, sep) == seq![s],
{
    lemma_next_match(s, sep, 0);
    match next_match(s, sep, 0) {
        Some(j) => {
            assert(s.subrange(j, j + sep.len())[0] == s[j]);
        },
        None => {},
    }
    assert(s.subrange(0, s.len() as int) =~= s);
}

/// A text that begins with a piece free of the separator's first character, then the
/// separator, is cut into that piece followed by the pieces of the rest.
pub proof fn lemma_split_first(a: Seq<char>, sep: Seq<char>, rest: Seq<char>)
    requires
        sep.len() > 0,
        forall|i: int| 0 <= i < a.len() ==> a[i] != sep[0],
    ensures
        split(a + sep + rest, sep) == seq![a] + split(rest, sep),
{
    let s = a + sep + rest;
    lemma_next_match(s, sep, 0);
    assert(s.subrange(a.len() as int, (a.len() + sep.len()) as int) =~= sep);
    assert(matches_at(s, sep, a.len() as int));
    match next_match(s, sep, 0) {
        Some(j) => {
            if j < a.len() {
                assert(s.subrange(j, j + sep.len())[0] == s[j]);
                assert(s[j] == a[j]);
            }
            assert(j == a.len());
        },
        None => {},
    }
    assert(s.subrange(0, a.len() as int) =~= a);
    lemma_split_from_shift(a + sep, rest, sep, 0);
}

/// Whether `c` is an ASCII decimal digit.
pub open spec fn is_digit(c: char) -> bool {
    '0' <= c && c <= '9'
}

/// The value of a decimal digit.
pub open spec fn digit_value(c: char) -> int {
    (c as u32) - ('0' as u32)
}

/// Whether every character of `s` is a decimal digit.
pub open spec fn all_digits(s: Seq<char>) -> bool {
    forall|i: int| 0 <= i < s.len() ==> is_digit(#[trigger] s[i])
}

/// The value of a string of decimal digits.
pub open spec fn digits_value(s: Seq<char>) -> int
    decreases s.len(),
{
    if s.len() == 0 {
        0
    } else {
        digits_value(s.drop_last()) * 10 + digit_value(s.last())
    }
}

/// The integer that `s` writes: an optional sign, then one or more decimal digits.
pub open spec fn integer_value(s: Seq<char>) -> Option<int> {
    if s.len() > 0 && (s[0] == '+' || s[0] == '-') {
        let d = s.drop_first();
        if d.len() > 0 && all_digits(d) {
            Some(if s[0] == '-' { -digits_value(d) } else { digits_value(d) })
        } else {
            None
        }
    } else if s.len() > 0 && all_digits(s) {
        Some(digits_value(s))
    } else {
        None
    }
}

/// What `s.parse::<i32>()` gives: the written integer where it fits into an `i32`.
pub open spec fn parsed_i32(s: Seq<char>) -> Option<i32> {
    match integer_value(s) {
        Some(v) => if i32::MIN <= v <= i32::MAX {
            Some(v as i32)
        } else {
            None
        },
        None => None,
    }
}

/// Whether two texts hold the same characters.
pub fn text_is(s: &str, t: &str) -> (b: bool)
    ensures
        b == (s@ == t@),
{
    let a = s.to_owned();
    let b = t.to_owned();
    a == b
}

/// Whether `c` has the Unicode `White_Space` property, as `char::is_whitespace` decides.
pub fn is_whitespace(c: char) -> (b: bool)
    ensures
        b == is_white_space(c),
{
    let v = c as u32;
    (0x9 <= v && v <= 0xd) || v == 0x20 || v == 0x85 || v == 0xa0 || v == 0x1680 || (0x2000 <= v
        && v <= 0x200a) || v == 0x2028 || v == 0x2029 || v == 0x202f || v == 0x205f || v == 0x3000
}

/// `s` without leading and trailing white space.
pub fn trim(s: &str) -> (r: String)
    ensures
        r@ == trimmed(s@),
{
    let n = s.unicode_len();
    let mut i: usize = 0;
    assert(s@.subrange(0, n as int) =~= s@);
    while i < n && is_whitespace(s.get_char(i))
        invariant
            n == s@.len(),
            i <= n,
            trim_start(s@) == trim_start(s@.subrange(i as int, n as int)),
        decreases n - i,
    {
        assert(s@.subrange(i as int, n as int).drop_first() =~= s@.subrange(i + 1, n as int));
        i += 1;
    }
    assert(trim_start(s@) == s@.subrange(i as int, n as int));
    let mut j: usize = n;
    while j > i && is_whitespace(s.get_char(j - 1))
        invariant
            n == s@.len(),
            i <= j <= n,
            trimmed(s@) == trim_end(s@.subrange(i as int, j as int)),
        decreases j - i,
    {
        assert(s@.subrange(i as int, j as int).drop_last() =~= s@.subrange(i as int, j - 1));
        j -= 1;
    }
    assert(trimmed(s@) == s@.subrange(i as int, j as int));
    s.substring_char(i, j).to_owned()
}

/// Whether `sep` occurs in `s` at position `j`.
fn occurs_at(s: &str, n: usize, sep: &str, m: usize, j: usize) -> (b: bool)
    requires
        m > 0,
        n == s@.len(),
        m == sep@.len(),
        j + m <= n,
    ensures
        b == matches_at(s@, sep@, j as int),
{
    let mut k: usize = 0;
    while k < m
        invariant
            n == s@.len(),
            m == sep@.len(),
            j + m <= n,
            k <= m,
            forall|q: int| 0 <= q < k ==> s@[j + q] == sep@[q],
        decreases m - k,
    {
        if s.get_char(j + k) != sep.get_char(k) {
            assert(s@.subrange(j as int, j + m)[k as int] != sep@[k as int]);
            return false;
        }
        k += 1;
    }
    assert(s@.subrange(j as int, j + m) =~= sep@);
    true
}

/// The first position at or after `from` where `sep` occurs in `s`.
fn find_from(s: &str, n: usize, sep: &str, m: usize, from: usize) -> (r: Option<usize>)
    requires
        m > 0,
        n == s@.len(),
        m == sep@.len(),
        from <= n,
    ensures
        match r {
            Some(j) => next_match(s@, sep@, from as int) == Some(j as int),
            None => next_match(s@, sep@, from as int) is None,
        },
{
    if m > n {
        proof {
            lemma_next_match(s@, sep@, from as int);
            if next_match(s@, sep@, from as int) is Some {
                let j = next_match(s@, sep@, from as int)->0;
                assert(matches_at(s@, sep@, j));
            }
        }
        return None;
    }
    let mut j: usize = from;
    while m <= n - j
        invariant
            n == s@.len(),
            m == sep@.len(),
            0 < m <= n,
            from <= j <= n,
            next_match(s@, sep@, from as int) == next_match(s@, sep@, j as int),
        decreases n - j,
    {
        if occurs_at(s, n, sep, m, j) {
            return Some(j);
        }
        j += 1;
    }
    None
}

/// The pieces of `s` cut at each occurrence of the non-empty separator `sep`.
pub fn split_text(s: &str, sep: &str) -> (parts: Vec<String>)
    requires
        sep@.len() > 0,
    ensures
        texts(parts@) == split(s@, sep@),
{
    let n = s.unicode_len();
    let m = sep.unicode_len();
    let mut parts: Vec<String> = Vec::new();
    let mut start: usize = 0;
    loop
        invariant
            n == s@.len(),
            m == sep@.len(),
            m > 0,
            start <= n,
            split(s@, sep@) == texts(parts@) + split_from(s@, sep@, start as int),
        decreases n - start,
    {
        match find_from(s, n, sep, m, start) {
            Some(j) => {
                proof {
                    lemma_next_match(s@, sep@, start as int);
                }
                let piece = s.substring_char(start, j).to_owned();
                let ghost before = parts@;
                parts.push(piece);
                assert(texts(parts@) =~= texts(before) + seq![s@.subrange(start as int, j as int)]);
                start = j + m;
            },
            None => {
                let piece = s.substring_char(start, n).to_owned();
                let ghost before = parts@;
                parts.push(piece);
                assert(texts(parts@) =~= texts(before) + seq![s@.subrange(start as int, n as int)]);
                return parts;
            },
        }
    }
}

/// The value of `s` as `s.parse::<i32>()` reads it.
pub fn parse_i32(s: &str) -> (r: Option<i32>)
    ensures
        r == parsed_i32(s@),
{
    let n = s.unicode_len();
    if n == 0 {
        return None;
    }
    let first = s.get_char(0);
    let signed = first == '+' || first == '-';
    let start: usize = if signed { 1 } else { 0 };
    if start == n {
        return None;
    }
    let ghost d = s@.subrange(start as int, n as int);
    // The magnitude read so far, held at `cap` once it exceeds what an `i32` can hold.
    let cap: u64 = 0x8000_0001;
    let mut magnitude: u64 = 0;
    let mut i: usize = start;
    while i < n
        invariant
            n == s@.len(),
            start <= i <= n,
            d == s@.subrange(start as int, n as int),
            start == (if signed { 1usize } else { 0usize }),
            signed == (s@[0] == '+' || s@[0] == '-'),
            cap == 0x8000_0001,
            all_digits(s@.subrange(start as int, i as int)),
            magnitude <= cap,
            magnitude == if digits_value(s@.subrange(start as int, i as int)) < cap {
                digits_value(s@.subrange(start as int, i as int))
            } else {
                cap as int
            },
            digits_value(s@.subrange(start as int, i as int)) >= 0,
        decreases n - i,
    {
        let c = s.get_char(i);
        if !('0' <= c && c <= '9') {
            assert(d[i - start] == c);
            if signed {
                assert(d =~= s@.drop_first());
            } else {
                assert(d =~= s@);
            }
            return None;
        }
        let ghost prefix = s@.subrange(start as int, i as int);
        let ghost next = s@.subrange(start as int, i + 1);
        assert(next.drop_last() =~= prefix);
        assert(next.last() == c);
        let v = (c as u32 - '0' as u32) as u64;
        magnitude = magnitude * 10 + v;
        if magnitude > cap {
            magnitude = cap;
        }
        i += 1;
    }
    assert(s@.subrange(start as int, n as int) =~= d);
    if signed {
        assert(d =~= s@.drop_first());
    } else {
        assert(d =~= s@);
    }
    if first == '-' {
        if magnitude <= 0x8000_0000 {
            let r = (0 - (magnitude as i64)) as i32;
            Some(r)
        } else {
            None
        }
    } else {
        if magnitude <= 0x7fff_ffff {
            Some(magnitude as i32)
        } else {
            None
        }
    }
}

} // verus!
