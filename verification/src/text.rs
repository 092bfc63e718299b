use vstd::prelude::*;

verus! {

broadcast use vstd::string::group_string_axioms;

/// The characters with the Unicode `White_Space` property, which is what
/// `char::is_whitespace` tests.
pub open spec fn is_whitespace(c: char) -> bool {
    let u = c as u32;
    ||| 0x09 <= u <= 0x0D
    ||| u == 0x20
    ||| u == 0x85
    ||| u == 0xA0
    ||| u == 0x1680
    ||| 0x2000 <= u <= 0x200A
    ||| u == 0x2028
    ||| u == 0x2029
    ||| u == 0x202F
    ||| u == 0x205F
    ||| u == 0x3000
}

/// Tests whether a character is Unicode white space.
pub fn char_is_whitespace(c: char) -> (b: bool)
    ensures
        b == is_whitespace(c),
{
    let u = c as u32;
    (0x09 <= u && u <= 0x0D) || u == 0x20 || u == 0x85 || u == 0xA0 || u == 0x1680 || (0x2000
        <= u && u <= 0x200A) || u == 0x2028 || u == 0x2029 || u == 0x202F || u == 0x205F || u
        == 0x3000
}

/// `s` without its leading white space.
pub open spec fn trim_start(s: Seq<char>) -> Seq<char>
    decreases s.len(),
{
    if s.len() > 0 && is_whitespace(s[0]) {
        trim_start(s.drop_first())
    } else {
        s
    }
}

/// `s` without its trailing white space.
pub open spec fn trim_end(s: Seq<char>) -> Seq<char>
    decreases s.len(),
{
    if s.len() > 0 && is_whitespace(s.last()) {
        trim_end(s.drop_last())
    } else {
        s
    }
}

/// `s` without leading and trailing white space, as `str::trim` gives it.
pub open spec fn trimmed(s: Seq<char>) -> Seq<char> {
    trim_end(trim_start(s))
}

proof fn lemma_trim_start_at(s: Seq<char>, i: int)
    requires
        0 <= i <= s.len(),
        forall|k: int| 0 <= k < i ==> is_whitespace(#[trigger] s[k]),
        i == s.len() || !is_whitespace(s[i]),
    ensures
        trim_start(s) == s.subrange(i, s.len() as int),
    decreases i,
{
    if i == 0 {
        assert(s.subrange(0, s.len() as int) =~= s);
    } else {
        let t = s.drop_first();
        assert forall|k: int| 0 <= k < i - 1 implies is_whitespace(#[trigger] t[k]) by {
            assert(t[k] == s[k + 1]);
        }
        lemma_trim_start_at(t, i - 1);
        assert(t.subrange(i - 1, t.len() as int) =~= s.subrange(i, s.len() as int));
    }
}

proof fn lemma_trim_end_at(s: Seq<char>, j: int)
    requires
        0 <= j <= s.len(),
        forall|k: int| j <= k < s.len() ==> is_whitespace(#[trigger] s[k]),
        j == 0 || !is_whitespace(s[j - 1]),
    ensures
        trim_end(s) == s.subrange(0, j),
    decreases s.len() - j,
{
    if j == s.len() {
        assert(s.subrange(0, j) =~= s);
    } else {
        let t = s.drop_last();
        assert forall|k: int| j <= k < t.len() implies is_whitespace(#[trigger] t[k]) by {
            assert(t[k] == s[k]);
        }
        lemma_trim_end_at(t, j);
        assert(t.subrange(0, j) =~= s.subrange(0, j));
    }
}

/// Copies the characters of a string slice into a vector.
pub fn to_chars(s: &str) -> (v: Vec<char>)
    ensures
        v@ == s@,
{
    let mut v: Vec<char> = Vec::new();
    for c in it: s.chars()
        invariant
            it.seq() == s@,
            v@ == it.seq().take(it.index() as int),
    {
        v.push(c);
        proof {
            assert(it.seq().take(it.index() + 1) =~= it.seq().take(it.index() as int).push(c));
        }
    }
    assert(v@ =~= s@);
    v
}

/// `std`'s `String::push`: appends one character.
#[verifier::external_body]
pub(crate) fn push_char(s: &mut String, c: char)
    ensures
        final(s)@ == old(s)@.push(c),
{
    s.push(c)
}

/// Builds a string from a slice of a character vector.
pub fn string_from_range(cs: &Vec<char>, start: usize, end: usize) -> (s: String)
    requires
        start <= end <= cs@.len(),
    ensures
        s@ == cs@.subrange(start as int, end as int),
{
    let mut s = String::new();
    let mut i = start;
    while i < end
        invariant
            start <= i <= end <= cs@.len(),
            s@ == cs@.subrange(start as int, i as int),
        decreases end - i,
    {
        push_char(&mut s, cs[i]);
        assert(cs@.subrange(start as int, i + 1) =~= cs@.subrange(start as int, i as int).push(
            cs@[i as int],
        ));
        i = i + 1;
    }
    s
}

/// Builds a string from a character vector.
pub fn string_from_chars(cs: &Vec<char>) -> (s: String)
    ensures
        s@ == cs@,
{
    let s = string_from_range(cs, 0, cs.len());
    assert(cs@.subrange(0, cs@.len() as int) =~= cs@);
    s
}

/// The positions `(start, end)` of the text left by `trimmed`.
pub fn trim_bounds(cs: &Vec<char>) -> (r: (usize, usize))
    ensures
        r.0 <= r.1 <= cs@.len(),
        trimmed(cs@) == cs@.subrange(r.0 as int, r.1 as int),
{
    let n = cs.len();
    let mut i: usize = 0;
    while i < n && char_is_whitespace(cs[i])
        invariant
            i <= n == cs@.len(),
            forall|k: int| 0 <= k < i ==> is_whitespace(#[trigger] cs@[k]),
        decreases n - i,
    {
        i = i + 1;
    }
    proof {
        lemma_trim_start_at(cs@, i as int);
    }
    let ghost rest = cs@.subrange(i as int, n as int);
    let mut j: usize = n;
    while j > i && char_is_whitespace(cs[j - 1])
        invariant
            i <= j <= n == cs@.len(),
            rest == cs@.subrange(i as int, n as int),
            forall|k: int| j <= k < n ==> is_whitespace(#[trigger] cs@[k]),
        decreases j - i,
    {
        j = j - 1;
    }
    proof {
        assert forall|k: int| j - i <= k < rest.len() implies is_whitespace(#[trigger] rest[k]) by {
            assert(rest[k] == cs@[k + i]);
        }
        if j > i {
            assert(rest[j - i - 1] == cs@[j - 1]);
        }
        lemma_trim_end_at(rest, j - i);
        assert(rest.subrange(0, j - i) =~= cs@.subrange(i as int, j as int));
    }
    (i, j)
}

/// `str::trim`: the text without leading and trailing white space.
pub fn trim(s: &str) -> (r: String)
    ensures
        r@ == trimmed(s@),
{
    let cs = to_chars(s);
    let (i, j) = trim_bounds(&cs);
    string_from_range(&cs, i, j)
}

/// Compares two strings character by character.
pub fn chars_eq(a: &Vec<char>, b: &Vec<char>) -> (eq: bool)
    ensures
        eq == (a@ == b@),
{
    if a.len() != b.len() {
        return false;
    }
    let mut i: usize = 0;
    while i < a.len()
        invariant
            i <= a@.len() == b@.len(),
            forall|k: int| 0 <= k < i ==> a@[k] == b@[k],
        decreases a@.len() - i,
    {
        if a[i] != b[i] {
            return false;
        }
        i = i + 1;
    }
    assert(a@ =~= b@);
    true
}

/// Compares two string slices.
pub fn str_eq(a: &str, b: &str) -> (eq: bool)
    ensures
        eq == (a@ == b@),
{
    let ca = to_chars(a);
    let cb = to_chars(b);
    chars_eq(&ca, &cb)
}

/// `str::starts_with` for a prefix of characters.
pub fn chars_start_with(s: &Vec<char>, prefix: &Vec<char>) -> (b: bool)
    ensures
        b == (prefix@.len() <= s@.len() && s@.subrange(0, prefix@.len() as int) == prefix@),
{
    if prefix.len() > s.len() {
        return false;
    }
    let mut i: usize = 0;
    while i < prefix.len()
        invariant
            i <= prefix@.len() <= s@.len(),
            forall|k: int| 0 <= k < i ==> s@[k] == prefix@[k],
        decreases prefix@.len() - i,
    {
        if s[i] != prefix[i] {
            assert(s@.subrange(0, prefix@.len() as int)[i as int] == s@[i as int]);
            return false;
        }
        i = i + 1;
    }
    assert(s@.subrange(0, prefix@.len() as int) =~= prefix@);
    true
}

} // verus!

verus! {

/// `str::ends_with` for a suffix of characters.
pub fn chars_end_with(s: &Vec<char>, suffix: &Vec<char>) -> (b: bool)
    ensures
        b == (suffix@.len() <= s@.len() && s@.subrange(
            s@.len() - suffix@.len(),
            s@.len() as int,
        ) == suffix@),
{
    if suffix.len() > s.len() {
        return false;
    }
    let n = s.len();
    let start = n - suffix.len();
    let mut m: usize = 0;
    while m < suffix.len()
        invariant
            m <= suffix@.len() <= s@.len(),
            n == s@.len(),
            start + suffix@.len() == n,
            forall|q: int| 0 <= q < m ==> s@[start + q] == suffix@[q],
        decreases suffix@.len() - m,
    {
        if s[start + m] != suffix[m] {
            assert(s@.subrange(start as int, s@.len() as int)[m as int] == s@[start + m]);
            return false;
        }
        m = m + 1;
    }
    assert(s@.subrange(start as int, s@.len() as int) =~= suffix@);
    true
}

/// `str::contains` for one character.
pub fn chars_contain(s: &Vec<char>, c: char) -> (b: bool)
    ensures
        b == s@.contains(c),
{
    let mut i: usize = 0;
    while i < s.len()
        invariant
            i <= s@.len(),
            forall|k: int| 0 <= k < i ==> s@[k] != c,
        decreases s@.len() - i,
    {
        if s[i] == c {
            assert(s@[i as int] == c);
            return true;
        }
        i = i + 1;
    }
    false
}

} // verus!

verus! {

// ----------------------------------------------------------------------------
// Character search
// ----------------------------------------------------------------------------

/// The position of the first `c` in `s`, if there is one.
pub open spec fn find_char(s: Seq<char>, c: char) -> Option<int>
    decreases s.len(),
{
    if s.len() == 0 {
        None
    } else if s[0] == c {
        Some(0)
    } else {
        match find_char(s.drop_first(), c) {
            Some(k) => Some(k + 1),
            None => None,
        }
    }
}

/// The position of the last `c` in `s`, if there is one.
pub open spec fn rfind_char(s: Seq<char>, c: char) -> Option<int>
    decreases s.len(),
{
    if s.len() == 0 {
        None
    } else if s.last() == c {
        Some(s.len() - 1)
    } else {
        rfind_char(s.drop_last(), c)
    }
}

pub proof fn lemma_find_char_at(s: Seq<char>, c: char, i: int)
    requires
        0 <= i <= s.len(),
        forall|k: int| 0 <= k < i ==> #[trigger] s[k] != c,
    ensures
        i < s.len() && s[i] == c ==> find_char(s, c) == Some(i),
        i == s.len() ==> find_char(s, c) is None,
    decreases i,
{
    if i > 0 {
        let t = s.drop_first();
        assert forall|k: int| 0 <= k < i - 1 implies #[trigger] t[k] != c by {
            assert(t[k] == s[k + 1]);
        }
        lemma_find_char_at(t, c, i - 1);
        if i < s.len() {
            assert(t[i - 1] == s[i]);
        }
    }
}

pub proof fn lemma_rfind_char_at(s: Seq<char>, c: char, j: int)
    requires
        0 <= j <= s.len(),
        forall|k: int| j <= k < s.len() ==> #[trigger] s[k] != c,
    ensures
        j > 0 && s[j - 1] == c ==> rfind_char(s, c) == Some(j - 1),
        j == 0 ==> rfind_char(s, c) is None,
    decreases s.len() - j,
{
    if j < s.len() {
        let t = s.drop_last();
        assert forall|k: int| j <= k < t.len() implies #[trigger] t[k] != c by {
            assert(t[k] == s[k]);
        }
        lemma_rfind_char_at(t, c, j);
        if j > 0 {
            assert(t[j - 1] == s[j - 1]);
        }
    }
}

/// Finds the first position of `c`.
pub fn find_char_exec(s: &Vec<char>, c: char) -> (r: Option<usize>)
    ensures
        match r {
            Some(k) => find_char(s@, c) == Some(k as int) && k < s@.len() && s@[k as int] == c,
            None => find_char(s@, c) is None,
        },
{
    let mut i: usize = 0;
    while i < s.len()
        invariant
            i <= s@.len(),
            forall|k: int| 0 <= k < i ==> #[trigger] s@[k] != c,
        decreases s@.len() - i,
    {
        if s[i] == c {
            proof {
                lemma_find_char_at(s@, c, i as int);
            }
            return Some(i);
        }
        i = i + 1;
    }
    proof {
        lemma_find_char_at(s@, c, i as int);
    }
    None
}

/// Finds the last position of `c`.
pub fn rfind_char_exec(s: &Vec<char>, c: char) -> (r: Option<usize>)
    ensures
        match r {
            Some(k) => rfind_char(s@, c) == Some(k as int) && k < s@.len() && s@[k as int] == c,
            None => rfind_char(s@, c) is None,
        },
{
    let mut j: usize = s.len();
    while j > 0
        invariant
            j <= s@.len(),
            forall|k: int| j <= k < s@.len() ==> #[trigger] s@[k] != c,
        decreases j,
    {
        if s[j - 1] == c {
            proof {
                lemma_rfind_char_at(s@, c, j as int);
            }
            return Some(j - 1);
        }
        j = j - 1;
    }
    proof {
        lemma_rfind_char_at(s@, c, 0);
    }
    None
}


/// A found position lies inside the sequence and holds the character.
pub proof fn lemma_find_char_some(s: Seq<char>, c: char)
    ensures
        find_char(s, c) matches Some(k) ==> 0 <= k < s.len() && s[k] == c,
    decreases s.len(),
{
    if s.len() > 0 && s[0] != c {
        lemma_find_char_some(s.drop_first(), c);
        if let Some(k) = find_char(s.drop_first(), c) {
            assert(s.drop_first()[k] == s[k + 1]);
        }
    }
}

/// `s` cut at every `c`, as `str::split` with a character pattern gives it.
pub open spec fn split_on(s: Seq<char>, c: char) -> Seq<Seq<char>>
    decreases s.len(),
{
    match find_char(s, c) {
        None => seq![s],
        Some(k) => {
            proof {
                lemma_find_char_some(s, c);
            }
            seq![s.subrange(0, k)] + split_on(s.subrange(k + 1, s.len() as int), c)
        },
    }
}

/// `str::split` with a character pattern.
pub fn split_char(s: &str, c: char) -> (parts: Vec<String>)
    ensures
        parts.deep_view() == split_on(s@, c),
{
    let cs = to_chars(s);
    let n = cs.len();
    let mut parts: Vec<String> = Vec::new();
    let mut start: usize = 0;
    let mut i: usize = 0;
    assert(cs@.subrange(0, n as int) =~= cs@);
    assert(parts.deep_view() + split_on(cs@, c) =~= split_on(cs@, c));
    while i < n
        invariant
            start <= i <= n == cs@.len(),
            cs@ == s@,
            forall|k: int| start <= k < i ==> #[trigger] cs@[k] != c,
            parts.deep_view() + split_on(cs@.subrange(start as int, n as int), c) == split_on(
                s@,
                c,
            ),
        decreases n - i,
    {
        if cs[i] == c {
            let piece = string_from_range(&cs, start, i);
            proof {
                let rest = cs@.subrange(start as int, n as int);
                assert forall|k: int| 0 <= k < i - start implies #[trigger] rest[k] != c by {
                    assert(rest[k] == cs@[start + k]);
                }
                assert(rest[i - start] == c);
                lemma_find_char_at(rest, c, i - start);
                assert(rest.subrange(0, i - start) =~= cs@.subrange(start as int, i as int));
                assert(rest.subrange(i - start + 1, rest.len() as int) =~= cs@.subrange(
                    i + 1,
                    n as int,
                ));
            }
            let ghost before = parts.deep_view();
            parts.push(piece);
            assert(parts.deep_view() =~= before.push(cs@.subrange(start as int, i as int)));
            assert(parts.deep_view() + split_on(cs@.subrange(i + 1, n as int), c) =~= before + (
            seq![cs@.subrange(start as int, i as int)] + split_on(cs@.subrange(i + 1, n as int), c)));
            start = i + 1;
        }
        i = i + 1;
    }
    proof {
        let rest = cs@.subrange(start as int, n as int);
        assert forall|k: int| 0 <= k < n - start implies #[trigger] rest[k] != c by {
            assert(rest[k] == cs@[start + k]);
        }
        lemma_find_char_at(rest, c, n - start);
    }
    let last = string_from_range(&cs, start, n);
    let ghost before = parts.deep_view();
    parts.push(last);
    assert(parts.deep_view() =~= before + seq![cs@.subrange(start as int, n as int)]);
    parts
}

} // verus!
