//! Character-level helpers on strings, each with an exact specification.

use vstd::prelude::*;

verus! {

/// Unicode `White_Space` code points, the set that `char::is_whitespace`
/// and `str::trim` use.
pub open spec fn is_white_space(c: char) -> bool {
    let u = c as u32;
    ||| 0x09 <= u <= 0x0d
    ||| u == 0x20
    ||| u == 0x85
    ||| u == 0xa0
    ||| u == 0x1680
    ||| 0x2000 <= u <= 0x200a
    ||| u == 0x2028
    ||| u == 0x2029
    ||| u == 0x202f
    ||| u == 0x205f
    ||| u == 0x3000
}

/// Executable test for a `White_Space` code point.
pub fn white_space(c: char) -> (r: bool)
    ensures
        r == is_white_space(c),
{
    let u = c as u32;
    (0x09 <= u && u <= 0x0d) || u == 0x20 || u == 0x85 || u == 0xa0 || u == 0x1680 || (0x2000
        <= u && u <= 0x200a) || u == 0x2028 || u == 0x2029 || u == 0x202f || u == 0x205f || u
        == 0x3000
}

/// The white-space law: among ASCII characters exactly tab, line feed,
/// vertical tab, form feed, carriage return and space are white space;
/// no-break and ideographic spaces are too, while zero-width characters
/// and letters are not.
pub proof fn law_white_space(c: char)
    ensures
        (c as u32) < 0x80 ==> (is_white_space(c) <==> (c == '\t' || c == '\n' || c == '\u{b}' || c
            == '\u{c}' || c == '\r' || c == ' ')),
        is_white_space('\u{a0}') && is_white_space('\u{3000}') && is_white_space('\u{2028}'),
        !is_white_space('\u{200b}') && !is_white_space('\u{feff}') && !is_white_space('\u{180e}'),
{
}

/// `s` with its leading white space removed.
pub open spec fn trim_start(s: Seq<char>) -> Seq<char>
    decreases s.len(),
{
    if s.len() > 0 && is_white_space(s[0]) {
        trim_start(s.drop_first())
    } else {
        s
    }
}

/// `s` with its trailing white space removed.
pub open spec fn trim_end(s: Seq<char>) -> Seq<char>
    decreases s.len(),
{
    if s.len() > 0 && is_white_space(s.last()) {
        trim_end(s.drop_last())
    } else {
        s
    }
}

/// `s` with white space removed at both ends, as `str::trim` does.
pub open spec fn trim(s: Seq<char>) -> Seq<char> {
    trim_end(trim_start(s))
}

/// The characters of `s`, in order.
pub fn chars_of(s: &str) -> (v: Vec<char>)
    ensures
        v@ == s@,
{
    let mut v: Vec<char> = Vec::new();
    for c in it: s.chars()
        invariant
            v@ == it.seq().take(it.index()),
    {
        v.push(c);
    }
    v
}


/// Trimming skips the white space at the front one character at a time.
pub proof fn lemma_trim_start_skip(s: Seq<char>, i: int)
    requires
        0 <= i < s.len(),
        is_white_space(s[i]),
    ensures
        trim_start(s.skip(i)) == trim_start(s.skip(i + 1)),
{
    assert(s.skip(i).drop_first() =~= s.skip(i + 1));
}

/// Trimming skips the white space at the back one character at a time.
pub proof fn lemma_trim_end_take(s: Seq<char>, j: int)
    requires
        0 < j <= s.len(),
        is_white_space(s[j - 1]),
    ensures
        trim_end(s.take(j)) == trim_end(s.take(j - 1)),
{
    assert(s.take(j).drop_last() =~= s.take(j - 1));
}

/// A sequence that starts with a non-white-space character, or is empty,
/// loses nothing at the front.
pub proof fn lemma_trim_start_stops(s: Seq<char>)
    requires
        s.len() == 0 || !is_white_space(s[0]),
    ensures
        trim_start(s) == s,
{
}

/// A sequence that ends with a non-white-space character, or is empty,
/// loses nothing at the back.
pub proof fn lemma_trim_end_stops(s: Seq<char>)
    requires
        s.len() == 0 || !is_white_space(s.last()),
    ensures
        trim_end(s) == s,
{
}

/// Where the text of `s` starts once leading white space is skipped.
proof fn lemma_trim_start_index(s: Seq<char>) -> (i: int)
    ensures
        0 <= i <= s.len(),
        trim_start(s) == s.skip(i),
        forall|k: int| 0 <= k < i ==> is_white_space(#[trigger] s[k]),
        i < s.len() ==> !is_white_space(s[i]),
    decreases s.len(),
{
    if s.len() > 0 && is_white_space(s[0]) {
        let i0 = lemma_trim_start_index(s.drop_first());
        assert(s.drop_first().skip(i0) =~= s.skip(i0 + 1));
        assert forall|k: int| 0 <= k < i0 + 1 implies is_white_space(#[trigger] s[k]) by {
            if k > 0 {
                assert(s[k] == s.drop_first()[k - 1]);
            }
        }
        i0 + 1
    } else {
        assert(s.skip(0) =~= s);
        0
    }
}

/// Where the text of `s` ends once trailing white space is dropped.
proof fn lemma_trim_end_index(s: Seq<char>) -> (m: int)
    ensures
        0 <= m <= s.len(),
        trim_end(s) == s.take(m),
        forall|k: int| m <= k < s.len() ==> is_white_space(#[trigger] s[k]),
        m > 0 ==> !is_white_space(s[m - 1]),
    decreases s.len(),
{
    if s.len() > 0 && is_white_space(s.last()) {
        let m0 = lemma_trim_end_index(s.drop_last());
        assert(s.drop_last().take(m0) =~= s.take(m0));
        assert forall|k: int| m0 <= k < s.len() implies is_white_space(#[trigger] s[k]) by {
            if k < s.len() - 1 {
                assert(s[k] == s.drop_last()[k]);
            }
        }
        m0
    } else {
        assert(s.take(s.len() as int) =~= s);
        s.len() as int
    }
}

/// The bounds of the trimmed text within `s`.
pub proof fn lemma_trim_bounds(s: Seq<char>) -> (b: (int, int))
    ensures
        0 <= b.0 <= b.1 <= s.len(),
        trim(s) == s.subrange(b.0, b.1),
        forall|k: int| 0 <= k < b.0 ==> is_white_space(#[trigger] s[k]),
        forall|k: int| b.1 <= k < s.len() ==> is_white_space(#[trigger] s[k]),
        b.0 < b.1 ==> !is_white_space(s[b.0]) && !is_white_space(s[b.1 - 1]),
        b.0 == b.1 ==> b.0 == s.len(),
{
    let i = lemma_trim_start_index(s);
    let t = s.skip(i);
    let m = lemma_trim_end_index(t);
    assert(t.take(m) =~= s.subrange(i, i + m));
    assert forall|k: int| i + m <= k < s.len() implies is_white_space(#[trigger] s[k]) by {
        assert(s[k] == t[k - i]);
    }
    if m > 0 {
        assert(s[i + m - 1] == t[m - 1]);
    } else if i < s.len() {
        assert(t[0] == s[i]);
        assert(is_white_space(t[0]));
    }
    (i, i + m)
}

/// The trimming law: trimming keeps one contiguous run of `s` that neither
/// starts nor ends with white space, and drops only white space around it;
/// it drops everything exactly when `s` is all white space.
pub proof fn law_trim(s: Seq<char>)
    ensures
        exists|i: int, j: int|
            {
                &&& 0 <= i <= j <= s.len()
                &&& trim(s) == s.subrange(i, j)
                &&& forall|k: int| 0 <= k < i ==> is_white_space(#[trigger] s[k])
                &&& forall|k: int| j <= k < s.len() ==> is_white_space(#[trigger] s[k])
            },
        trim(s).len() > 0 ==> !is_white_space(trim(s)[0]) && !is_white_space(trim(s).last()),
        trim(s).len() == 0 <==> forall|k: int| 0 <= k < s.len() ==> is_white_space(#[trigger] s[k]),
{
    let b = lemma_trim_bounds(s);
    assert(0 <= b.0 <= b.1 <= s.len() && trim(s) == s.subrange(b.0, b.1));
    if b.0 < b.1 {
        assert(trim(s)[0] == s[b.0]);
        assert(trim(s).last() == s[b.1 - 1]);
        assert(!is_white_space(s[b.0]));
    } else {
        assert forall|k: int| 0 <= k < s.len() implies is_white_space(#[trigger] s[k]) by {
        }
    }
}

/// `s` with white space removed at both ends.
pub fn trim_str(s: &str) -> (r: &str)
    ensures
        r@ == trim(s@),
{
    let chars = chars_of(s);
    let n = chars.len();
    let mut i: usize = 0;
    assert(s@.skip(0) =~= s@);
    while i < n && white_space(chars[i])
        invariant
            chars@ == s@,
            n == s@.len(),
            i <= n,
            trim_start(s@) == trim_start(s@.skip(i as int)),
        decreases n - i,
    {
        proof {
            lemma_trim_start_skip(s@, i as int);
        }
        i = i + 1;
    }
    let ghost front = s@.skip(i as int);
    proof {
        lemma_trim_start_stops(front);
        assert(trim_start(s@) == front);
    }
    let mut j: usize = n;
    assert(front.take(n - i) =~= front);
    while j > i && white_space(chars[j - 1])
        invariant
            chars@ == s@,
            n == s@.len(),
            i <= j <= n,
            front == s@.skip(i as int),
            trim_end(front) == trim_end(front.take(j - i)),
        decreases j,
    {
        proof {
            lemma_trim_end_take(front, (j - i) as int);
        }
        j = j - 1;
    }
    proof {
        lemma_trim_end_stops(front.take(j - i));
        assert(front.take(j - i) =~= s@.subrange(i as int, j as int));
    }
    s.substring_char(i, j)
}


/// The characters of an optional string.
pub open spec fn opt_text(o: Option<String>) -> Option<Seq<char>> {
    match o {
        Some(s) => Some(s@),
        None => None,
    }
}

/// Whether `a` and `b` hold the same characters.
pub fn same_text(a: &str, b: &str) -> (r: bool)
    ensures
        r == (a@ == b@),
{
    let x = chars_of(a);
    let y = chars_of(b);
    if x.len() != y.len() {
        return false;
    }
    let n = x.len();
    for i in 0..n
        invariant
            x@ == a@,
            y@ == b@,
            n == x@.len(),
            n == y@.len(),
            forall|k: int| 0 <= k < i ==> x@[k] == y@[k],
    {
        if x[i] != y[i] {
            return false;
        }
    }
    assert(a@ =~= b@);
    true
}

/// The concatenation of `a`, `b` and `c`.
pub fn join3(a: &str, b: &str, c: &str) -> (r: String)
    ensures
        r@ == a@ + b@ + c@,
{
    let mut r = String::from_str(a);
    r.append(b);
    r.append(c);
    r
}

} // verus!
