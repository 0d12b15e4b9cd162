//! Character-level string helpers with specifications over `Seq<char>`.

use vstd::prelude::*;
use vstd::string::*;

verus! {

/// `pat` occurs in `s` starting at index `i`.
pub open spec fn occurs_at(s: Seq<char>, pat: Seq<char>, i: int) -> bool {
    0 <= i && i + pat.len() <= s.len() && s.subrange(i, i + pat.len()) == pat
}

/// `pat` occurs somewhere in `s` (the empty pattern occurs in every string).
pub open spec fn contains_seq(s: Seq<char>, pat: Seq<char>) -> bool {
    exists|i: int| occurs_at(s, pat, i)
}

/// Appends one character to a string.
///
/// Trusted: `String::push` appends the character at the end of the string.
#[verifier::external_body]
pub(crate) fn push_char(s: &mut String, c: char)
    ensures
        final(s)@ == old(s)@.push(c),
{
    s.push(c);
}

/// The characters of `s`, in order.
pub fn str_chars(s: &str) -> (r: Vec<char>)
    ensures
        r@ == s@,
{
    let n: usize = s.unicode_len();
    let mut v: Vec<char> = Vec::new();
    let mut i: usize = 0;
    while i < n
        invariant
            i <= n,
            n == s@.len(),
            v@ == s@.take(i as int),
        decreases n - i,
    {
        let c = s.get_char(i);
        v.push(c);
        i = i + 1;
        assert(v@ =~= s@.take(i as int));
    }
    assert(v@ =~= s@);
    v
}

/// The string made of the characters `cs`.
pub fn string_from_chars(cs: &[char]) -> (r: String)
    ensures
        r@ == cs@,
{
    let mut s = String::new();
    let mut i: usize = 0;
    while i < cs.len()
        invariant
            i <= cs.len(),
            s@ == cs@.take(i as int),
        decreases cs.len() - i,
    {
        push_char(&mut s, cs[i]);
        i = i + 1;
        assert(s@ =~= cs@.take(i as int));
    }
    assert(s@ =~= cs@);
    s
}

/// Whether `c` occurs in `s`.
pub fn chars_have(s: &[char], c: char) -> (r: bool)
    ensures
        r == s@.contains(c),
{
    let mut i: usize = 0;
    while i < s.len()
        invariant
            i <= s.len(),
            forall|j: int| 0 <= j < i ==> s@[j] != c,
        decreases s.len() - i,
    {
        if s[i] == c {
            assert(s@[i as int] == c);
            return true;
        }
        i = i + 1;
    }
    false
}

/// Whether `pat` occurs at index `at` of `s`.
pub fn chars_match_at(s: &[char], pat: &[char], at: usize) -> (r: bool)
    ensures
        r == occurs_at(s@, pat@, at as int),
{
    if at > s.len() || pat.len() > s.len() - at {
        return false;
    }
    let mut k: usize = 0;
    while k < pat.len()
        invariant
            k <= pat.len(),
            at + pat.len() <= s.len(),
            forall|j: int| 0 <= j < k ==> s@[at + j] == pat@[j],
        decreases pat.len() - k,
    {
        if s[at + k] != pat[k] {
            assert(s@.subrange(at as int, at + pat.len())[k as int] != pat@[k as int]);
            return false;
        }
        k = k + 1;
    }
    assert(s@.subrange(at as int, at + pat.len()) =~= pat@);
    true
}

/// Whether `pat` occurs anywhere in `s`.
pub fn chars_contain(s: &[char], pat: &[char]) -> (r: bool)
    ensures
        r == contains_seq(s@, pat@),
{
    if pat.len() > s.len() {
        return false;
    }
    let last: usize = s.len() - pat.len();
    let mut i: usize = 0;
    loop
        invariant
            last == s.len() - pat.len(),
            i <= last,
            forall|j: int| 0 <= j < i ==> !occurs_at(s@, pat@, j),
        decreases last - i,
    {
        if chars_match_at(s, pat, i) {
            return true;
        }
        if i == last {
            return false;
        }
        i = i + 1;
    }
}

/// Whether `p` is a prefix of `s`.
pub fn chars_start_with(s: &[char], p: &[char]) -> (r: bool)
    ensures
        r == p@.is_prefix_of(s@),
{
    let r = chars_match_at(s, p, 0);
    proof {
        if r {
            assert(s@.subrange(0, p@.len() as int) == p@);
        }
        if p@.is_prefix_of(s@) {
            assert(s@.subrange(0, p@.len() as int) =~= p@);
        }
    }
    r
}

/// Whether the two character sequences are equal.
pub fn chars_equal(a: &[char], b: &[char]) -> (r: bool)
    ensures
        r == (a@ == b@),
{
    if a.len() != b.len() {
        return false;
    }
    let r = chars_match_at(a, b, 0);
    proof {
        if r {
            assert(a@.subrange(0, b@.len() as int) =~= a@);
        }
        if a@ == b@ {
            assert(a@.subrange(0, b@.len() as int) =~= b@);
        }
    }
    r
}

/// The string made of `cs[from..to]`.
pub fn string_from_range(cs: &[char], from: usize, to: usize) -> (r: String)
    requires
        from <= to <= cs.len(),
    ensures
        r@ == cs@.subrange(from as int, to as int),
{
    let mut s = String::new();
    let mut i: usize = from;
    while i < to
        invariant
            from <= i <= to <= cs.len(),
            s@ == cs@.subrange(from as int, i as int),
        decreases to - i,
    {
        push_char(&mut s, cs[i]);
        i = i + 1;
        assert(s@ =~= cs@.subrange(from as int, i as int));
    }
    s
}

/// `i` is the only index of `s` that holds `c`.
pub open spec fn sole_index(s: Seq<char>, c: char, i: int) -> bool {
    0 <= i < s.len() && s[i] == c && forall|j: int| 0 <= j < s.len() && s[j] == c ==> j == i
}

/// The two pieces of `s` around `c`, where `c` occurs in `s` exactly once;
/// `None` where it occurs never or more than once.
pub open spec fn split_at_sole(s: Seq<char>, c: char) -> Option<(Seq<char>, Seq<char>)> {
    if exists|i: int| sole_index(s, c, i) {
        let i: int = choose|i: int| sole_index(s, c, i);
        Some((s.take(i), s.skip(i + 1)))
    } else {
        None
    }
}

/// The index at which `c` occurs in `cs`, where it occurs exactly once.
pub fn sole_position(cs: &[char], c: char) -> (r: Option<usize>)
    ensures
        match r {
            Some(i) => sole_index(cs@, c, i as int),
            None => !exists|i: int| sole_index(cs@, c, i),
        },
{
    let mut found: Option<usize> = None;
    let mut k: usize = 0;
    while k < cs.len()
        invariant
            k <= cs.len(),
            match found {
                Some(i) => i < k && cs@[i as int] == c && forall|j: int|
                    0 <= j < k && cs@[j] == c ==> j == i,
                None => forall|j: int| 0 <= j < k ==> cs@[j] != c,
            },
        decreases cs.len() - k,
    {
        if cs[k] == c {
            match found {
                Some(i) => {
                    assert(!sole_index(cs@, c, i as int));
                    assert forall|x: int| !sole_index(cs@, c, x) by {
                        if sole_index(cs@, c, x) {
                            assert(cs@[k as int] == c);
                        }
                    }
                    return None;
                },
                None => {
                    found = Some(k);
                },
            }
        }
        k = k + 1;
    }
    found
}

/// Splitting at the sole `c` loses nothing: the two pieces joined by `c`
/// give back `s`, and neither piece holds `c`; and a text with exactly one
/// `c` is always split.
pub proof fn split_at_sole_rejoins(s: Seq<char>, c: char)
    ensures
        split_at_sole(s, c) matches Some(parts) ==> parts.0 + seq![c] + parts.1 == s
            && !parts.0.contains(c) && !parts.1.contains(c),
        (exists|i: int| sole_index(s, c, i)) <==> split_at_sole(s, c) is Some,
{
    if exists|i: int| sole_index(s, c, i) {
        let i = choose|i: int| sole_index(s, c, i);
        assert(s.take(i) + seq![c] + s.skip(i + 1) =~= s);
        let t = s.take(i);
        let u = s.skip(i + 1);
        assert forall|k: int| 0 <= k < t.len() implies #[trigger] t[k] != c by {
            assert(s[k] != c || k == i);
        }
        assert forall|k: int| 0 <= k < u.len() implies #[trigger] u[k] != c by {
            assert(s[i + 1 + k] != c || i + 1 + k == i);
        }
    }
}

/// Splits at the sole occurrence of `c`.
pub proof fn lemma_split_at_sole(s: Seq<char>, c: char, i: int)
    requires
        sole_index(s, c, i),
    ensures
        split_at_sole(s, c) == Some((s.take(i), s.skip(i + 1))),
{
    let k: int = choose|k: int| sole_index(s, c, k);
    assert(k == i);
}

/// `i` is the first index of `s` that holds `c`.
pub open spec fn first_index_at(s: Seq<char>, c: char, i: int) -> bool {
    0 <= i < s.len() && s[i] == c && forall|j: int| 0 <= j < i ==> s[j] != c
}

/// The first index of `s` that holds `c`, if any.
pub open spec fn first_index(s: Seq<char>, c: char) -> Option<int> {
    if s.contains(c) {
        Some(choose|i: int| first_index_at(s, c, i))
    } else {
        None
    }
}

/// The first index of `cs` that holds `c`.
pub fn find_first(cs: &[char], c: char) -> (r: Option<usize>)
    ensures
        match r {
            Some(i) => first_index(cs@, c) == Some(i as int) && i < cs@.len(),
            None => first_index(cs@, c) is None,
        },
{
    let mut k: usize = 0;
    while k < cs.len()
        invariant
            k <= cs.len(),
            forall|j: int| 0 <= j < k ==> cs@[j] != c,
        decreases cs.len() - k,
    {
        if cs[k] == c {
            assert(first_index_at(cs@, c, k as int));
            assert(cs@.contains(c));
            proof {
                let w: int = choose|i: int| first_index_at(cs@, c, i);
                if w < k {
                    assert(cs@[w] != c);
                } else if w > k {
                    assert(cs@[k as int] == c);
                }
            }
            return Some(k);
        }
        k = k + 1;
    }
    assert(!cs@.contains(c));
    None
}

/// `s` without the copies of `c` at its start.
pub open spec fn trim_leading(s: Seq<char>, c: char) -> Seq<char>
    decreases s.len(),
{
    if s.len() > 0 && s[0] == c {
        trim_leading(s.drop_first(), c)
    } else {
        s
    }
}

/// `s` without the copies of `c` at its start (`str::trim_start_matches`
/// with a character).
pub fn trim_leading_char(s: &str, c: char) -> (r: String)
    ensures
        r@ == trim_leading(s@, c),
{
    let cs = str_chars(s);
    let n: usize = cs.len();
    let mut a: usize = 0;
    assert(cs@.skip(0) =~= cs@);
    while a < n && cs[a] == c
        invariant
            a <= n,
            n == cs@.len(),
            trim_leading(cs@, c) == trim_leading(cs@.skip(a as int), c),
        decreases n - a,
    {
        assert(cs@.skip(a as int).drop_first() =~= cs@.skip(a + 1));
        a = a + 1;
    }
    assert(cs@.subrange(a as int, n as int) =~= cs@.skip(a as int));
    string_from_range(cs.as_slice(), a, n)
}

/// Whether `pat` occurs in `s`.
pub fn str_contains(s: &str, pat: &str) -> (r: bool)
    ensures
        r == contains_seq(s@, pat@),
{
    let a = str_chars(s);
    let b = str_chars(pat);
    chars_contain(a.as_slice(), b.as_slice())
}

/// Whether `s` starts with `p`.
pub fn str_starts_with(s: &str, p: &str) -> (r: bool)
    ensures
        r == p@.is_prefix_of(s@),
{
    let a = str_chars(s);
    let b = str_chars(p);
    chars_start_with(a.as_slice(), b.as_slice())
}

/// Whether the two strings are equal.
pub fn str_equal(a: &str, b: &str) -> (r: bool)
    ensures
        r == (a@ == b@),
{
    let x = str_chars(a);
    let y = str_chars(b);
    chars_equal(x.as_slice(), y.as_slice())
}

/// `i` is the first of `names` that contains `pat`.
pub open spec fn first_containing_at(names: Seq<String>, pat: Seq<char>, i: int) -> bool {
    &&& 0 <= i < names.len()
    &&& contains_seq(names[i]@, pat)
    &&& forall|j: int| 0 <= j < i ==> !contains_seq(names[j]@, pat)
}

/// The index of the first of `names` that contains `pat`.
pub fn first_containing(names: &Vec<String>, pat: &str) -> (r: Option<usize>)
    ensures
        match r {
            Some(i) => first_containing_at(names@, pat@, i as int),
            None => forall|j: int| 0 <= j < names@.len() ==> !contains_seq(names@[j]@, pat@),
        },
{
    let mut k: usize = 0;
    while k < names.len()
        invariant
            k <= names.len(),
            forall|j: int| 0 <= j < k ==> !contains_seq(names@[j]@, pat@),
        decreases names.len() - k,
    {
        if str_contains(names[k].as_str(), pat) {
            return Some(k);
        }
        k = k + 1;
    }
    None
}

} // verus!
