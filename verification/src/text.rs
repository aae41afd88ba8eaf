//! String processing shared by the elements: ASCII lower-casing and trimming
//! of HTML space characters.
use vstd::prelude::*;

verus! {

/// The HTML space characters: space, tab, line feed, form feed and carriage return.
pub open spec fn is_html_space(c: char) -> bool {
    c == ' ' || c == '\t' || c == '\n' || c == '\x0C' || c == '\r'
}

/// The ASCII lower-case form of one character: `A`..=`Z` map to `a`..=`z`,
/// every other character is kept.
pub open spec fn ascii_lower_char(c: char) -> char {
    if 'A' <= c && c <= 'Z' {
        ((c as u32) + 32) as char
    } else {
        c
    }
}

/// The ASCII lower-case form of a string.
pub open spec fn ascii_lowercase(s: Seq<char>) -> Seq<char> {
    s.map_values(|c: char| ascii_lower_char(c))
}

/// `s` without its leading HTML space characters.
pub open spec fn trim_start(s: Seq<char>) -> Seq<char>
    decreases s.len(),
{
    if s.len() > 0 && is_html_space(s[0]) {
        trim_start(s.drop_first())
    } else {
        s
    }
}

/// `s` without its trailing HTML space characters.
pub open spec fn trim_end(s: Seq<char>) -> Seq<char>
    decreases s.len(),
{
    if s.len() > 0 && is_html_space(s.last()) {
        trim_end(s.drop_last())
    } else {
        s
    }
}

/// `s` without HTML space characters at either end.
pub open spec fn trim_html_space(s: Seq<char>) -> Seq<char> {
    trim_end(trim_start(s))
}

/// Lower-casing a character twice is lower-casing it once, and it keeps
/// whether the character is an HTML space character.
proof fn lemma_lower_char(c: char)
    ensures
        ascii_lower_char(ascii_lower_char(c)) == ascii_lower_char(c),
        is_html_space(ascii_lower_char(c)) == is_html_space(c),
{
    if 'A' <= c && c <= 'Z' {
        let l = ascii_lower_char(c);
        assert(l as u32 == (c as u32) + 32);
        assert('a' <= l && l <= 'z');
    }
}

proof fn lemma_lowercase_idempotent(s: Seq<char>)
    ensures
        ascii_lowercase(ascii_lowercase(s)) == ascii_lowercase(s),
{
    assert forall|i: int| 0 <= i < s.len() implies #[trigger] ascii_lowercase(ascii_lowercase(s))[i]
        == ascii_lowercase(s)[i] by {
        lemma_lower_char(s[i]);
    }
    assert(ascii_lowercase(ascii_lowercase(s)) =~= ascii_lowercase(s));
}

proof fn lemma_lowercase_trim_start(s: Seq<char>)
    ensures
        ascii_lowercase(trim_start(s)) == trim_start(ascii_lowercase(s)),
    decreases s.len(),
{
    if s.len() > 0 {
        lemma_lower_char(s[0]);
        assert(ascii_lowercase(s)[0] == ascii_lower_char(s[0]));
        assert(ascii_lowercase(s).drop_first() =~= ascii_lowercase(s.drop_first()));
        lemma_lowercase_trim_start(s.drop_first());
    }
}

proof fn lemma_lowercase_trim_end(s: Seq<char>)
    ensures
        ascii_lowercase(trim_end(s)) == trim_end(ascii_lowercase(s)),
    decreases s.len(),
{
    if s.len() > 0 {
        lemma_lower_char(s.last());
        assert(ascii_lowercase(s).last() == ascii_lower_char(s.last()));
        assert(ascii_lowercase(s).drop_last() =~= ascii_lowercase(s.drop_last()));
        lemma_lowercase_trim_end(s.drop_last());
    }
}

proof fn lemma_trim_start_result(s: Seq<char>)
    ensures
        trim_start(trim_start(s)) == trim_start(s),
        trim_start(s).len() == 0 || !is_html_space(trim_start(s)[0]),
    decreases s.len(),
{
    if s.len() > 0 && is_html_space(s[0]) {
        lemma_trim_start_result(s.drop_first());
    }
}

proof fn lemma_trim_end_result(s: Seq<char>)
    ensures
        trim_end(trim_end(s)) == trim_end(s),
        trim_end(s).len() <= s.len(),
        forall|i: int| 0 <= i < trim_end(s).len() ==> #[trigger] trim_end(s)[i] == s[i],
    decreases s.len(),
{
    if s.len() > 0 && is_html_space(s.last()) {
        lemma_trim_end_result(s.drop_last());
    }
}

/// Trimming twice is trimming once.
proof fn lemma_trim_idempotent(s: Seq<char>)
    ensures
        trim_html_space(trim_html_space(s)) == trim_html_space(s),
{
    let t = trim_start(s);
    lemma_trim_start_result(s);
    lemma_trim_end_result(t);
    let e = trim_end(t);
    if e.len() > 0 {
        assert(e[0] == t[0]);
    }
    assert(trim_start(e) == e);
}

/// Lower-casing and trimming HTML space characters, done twice, give what
/// doing it once gives: the normalized form of a name is its own normalized
/// form.
pub proof fn lemma_lowercase_trim_idempotent(s: Seq<char>)
    ensures
        trim_html_space(ascii_lowercase(trim_html_space(ascii_lowercase(s)))) == trim_html_space(
            ascii_lowercase(s),
        ),
{
    let l = ascii_lowercase(s);
    lemma_lowercase_trim_end(trim_start(l));
    lemma_lowercase_trim_start(l);
    lemma_lowercase_idempotent(s);
    lemma_trim_idempotent(l);
}

/// The HTML space characters are exactly U+0020, U+0009, U+000A, U+000C and
/// U+000D.
pub proof fn lemma_html_space_law(c: char)
    ensures
        is_html_space(c) <==> (c as u32 == 0x20 || c as u32 == 0x09 || c as u32 == 0x0A || c as u32 == 0x0C
            || c as u32 == 0x0D),
{
}

/// Lower-casing keeps the length, turns each of `A`..=`Z` into the letter 32
/// code points later (`a`..=`z`) and keeps every other character.
pub proof fn lemma_ascii_lowercase_law(s: Seq<char>, i: int)
    ensures
        ascii_lowercase(s).len() == s.len(),
        (0 <= i < s.len() && 'A' <= s[i] && s[i] <= 'Z') ==> ascii_lowercase(s)[i] as u32 == (s[i] as u32)
            + 32,
        (0 <= i < s.len() && !('A' <= s[i] && s[i] <= 'Z')) ==> ascii_lowercase(s)[i] == s[i],
{
    if 0 <= i < s.len() && 'A' <= s[i] && s[i] <= 'Z' {
        lemma_lower_char(s[i]);
        assert(ascii_lower_char(s[i]) as u32 == (s[i] as u32) + 32);
    }
}

/// Where the leading HTML space characters end.
proof fn lemma_trim_start_split(s: Seq<char>) -> (a: int)
    ensures
        0 <= a <= s.len(),
        trim_start(s) == s.subrange(a, s.len() as int),
        forall|i: int| 0 <= i < a ==> is_html_space(#[trigger] s[i]),
        a < s.len() ==> !is_html_space(s[a]),
    decreases s.len(),
{
    if s.len() > 0 && is_html_space(s[0]) {
        let rest = s.drop_first();
        let a1 = lemma_trim_start_split(rest);
        assert(rest.subrange(a1, rest.len() as int) == s.subrange(a1 + 1, s.len() as int));
        assert forall|i: int| 0 <= i < a1 + 1 implies is_html_space(#[trigger] s[i]) by {
            if i > 0 {
                assert(s[i] == rest[i - 1]);
            }
        }
        a1 + 1
    } else {
        assert(s.subrange(0, s.len() as int) == s);
        0
    }
}

/// Where the trailing HTML space characters begin.
proof fn lemma_trim_end_split(s: Seq<char>) -> (b: int)
    ensures
        0 <= b <= s.len(),
        trim_end(s) == s.subrange(0, b),
        forall|i: int| b <= i < s.len() ==> is_html_space(#[trigger] s[i]),
        b > 0 ==> !is_html_space(s[b - 1]),
    decreases s.len(),
{
    if s.len() > 0 && is_html_space(s.last()) {
        let rest = s.drop_last();
        let b1 = lemma_trim_end_split(rest);
        assert(rest.subrange(0, b1) == s.subrange(0, b1));
        assert forall|i: int| b1 <= i < s.len() implies is_html_space(#[trigger] s[i]) by {
            if i < s.len() - 1 {
                assert(s[i] == rest[i]);
            }
        }
        b1
    } else {
        assert(s.subrange(0, s.len() as int) == s);
        s.len() as int
    }
}

/// What trimming does: it keeps one contiguous part of the string, removes
/// only HTML space characters before and after it, and the part kept neither
/// starts nor ends with one.
pub proof fn lemma_trim_law(s: Seq<char>)
    ensures
        exists|a: int, b: int|
            {
                &&& 0 <= a <= b <= s.len()
                &&& trim_html_space(s) == s.subrange(a, b)
                &&& forall|i: int| 0 <= i < a ==> is_html_space(#[trigger] s[i])
                &&& forall|i: int| b <= i < s.len() ==> is_html_space(#[trigger] s[i])
                &&& a < b ==> !is_html_space(s[a]) && !is_html_space(s[b - 1])
            },
{
    let a = lemma_trim_start_split(s);
    let t = s.subrange(a, s.len() as int);
    let b1 = lemma_trim_end_split(t);
    let b = a + b1;
    assert(t.subrange(0, b1) == s.subrange(a, b));
    assert forall|i: int| b <= i < s.len() implies is_html_space(#[trigger] s[i]) by {
        assert(s[i] == t[i - a]);
    }
    if a < b {
        assert(s[a] == t[0]);
        assert(s[b - 1] == t[b1 - 1]);
    }
}

/// Executable form of `is_html_space`.
pub fn char_is_html_space(c: char) -> (b: bool)
    ensures
        b == is_html_space(c),
{
    c == ' ' || c == '\t' || c == '\n' || c == '\x0C' || c == '\r'
}

/// Executable form of `ascii_lower_char`.
pub fn char_to_ascii_lowercase(c: char) -> (r: char)
    ensures
        r == ascii_lower_char(c),
{
    if 'A' <= c && c <= 'Z' {
        let b: u8 = c as u8;
        (b + 32) as char
    } else {
        c
    }
}


/// `String::push` from std: appends one character.
#[verifier::external_body]
fn push_char(s: &mut String, c: char)
    ensures
        final(s)@ == old(s)@.push(c),
{
    s.push(c)
}

/// The ASCII lower-case copy of `s` (what `str::to_ascii_lowercase` returns).
pub fn to_ascii_lowercase(s: &str) -> (r: String)
    ensures
        r@ == ascii_lowercase(s@),
{
    broadcast use vstd::string::group_string_axioms;
    let mut r = String::new();
    for c in it: s.chars()
        invariant
            it.seq() == s@,
            r@ == ascii_lowercase(s@.take(it.index() as int)),
    {
        let lc = char_to_ascii_lowercase(c);
        push_char(&mut r, lc);
        assert(s@.take(it.index() + 1) == s@.take(it.index() as int).push(c));
    }
    assert(s@.take(s@.len() as int) == s@);
    r
}


/// The characters of `s`, in order.
fn chars_of(s: &str) -> (v: Vec<char>)
    ensures
        v@ == s@,
{
    broadcast use vstd::string::group_string_axioms;
    let mut v: Vec<char> = Vec::new();
    for c in it: s.chars()
        invariant
            it.seq() == s@,
            v@ == s@.take(it.index() as int),
    {
        v.push(c);
        assert(s@.take(it.index() + 1) == s@.take(it.index() as int).push(c));
    }
    assert(s@.take(s@.len() as int) == s@);
    v
}

/// `s` with the HTML space characters at both ends removed (what
/// `str::trim_matches` with the HTML space characters returns).
pub fn trim_html_space_str(s: &str) -> (r: String)
    ensures
        r@ == trim_html_space(s@),
{
    let cs = chars_of(s);
    let n = cs.len();
    let mut start: usize = 0;
    assert(s@.subrange(0, n as int) == s@);
    while start < n && char_is_html_space(cs[start])
        invariant
            cs@ == s@,
            n == cs@.len(),
            start <= n,
            trim_start(s@) == trim_start(s@.subrange(start as int, n as int)),
        decreases n - start,
    {
        assert(s@.subrange(start as int, n as int).drop_first() == s@.subrange(start + 1, n as int));
        start = start + 1;
    }
    let ghost front = s@.subrange(start as int, n as int);
    assert(trim_start(s@) == front);
    let mut end: usize = n;
    assert(front == s@.subrange(start as int, end as int));
    while end > start && char_is_html_space(cs[end - 1])
        invariant
            cs@ == s@,
            n == cs@.len(),
            start <= end <= n,
            front == s@.subrange(start as int, n as int),
            trim_end(front) == trim_end(s@.subrange(start as int, end as int)),
        decreases end - start,
    {
        assert(s@.subrange(start as int, end as int).drop_last() == s@.subrange(start as int, end - 1));
        end = end - 1;
    }
    let mut r = String::new();
    let mut i: usize = start;
    while i < end
        invariant
            cs@ == s@,
            n == cs@.len(),
            start <= i <= end <= n,
            r@ == s@.subrange(start as int, i as int),
        decreases end - i,
    {
        push_char(&mut r, cs[i]);
        assert(s@.subrange(start as int, i + 1) == s@.subrange(start as int, i as int).push(cs@[i as int]));
        i = i + 1;
    }
    r
}

} // verus!
