//! The metadata block that release notes carry.
//!
//! A block reads `<!--`, optional white space, `BEGIN_RELEASE_METADATA`,
//! white space, a JSON object `{...}`, white space, `END_RELEASE_METADATA`,
//! optional white space, `-->`. The first block of the notes counts: the one
//! that starts leftmost, and of those starting there the one whose object
//! ends first.

use vstd::prelude::*;

use crate::text::{chars_match_at, occurs_at, str_chars, string_from_range};
use crate::utils::{is_white_space, white_space};

verus! {

/// The text the metadata block starts with, after `<!--`.
pub open spec fn metadata_marker() -> Seq<char> {
    "BEGIN_RELEASE_METADATA"@
}

/// The text the metadata block ends with, before `-->`.
pub open spec fn metadata_end_marker() -> Seq<char> {
    "END_RELEASE_METADATA"@
}

/// The first index at or after `p` that does not hold white space (or the
/// end of `s`).
pub open spec fn ws_skip(s: Seq<char>, p: int) -> int
    decreases s.len() - p,
{
    if 0 <= p < s.len() && is_white_space(s[p]) {
        ws_skip(s, p + 1)
    } else {
        p
    }
}

/// Skipping white space from `p` passes over every white-space character
/// (every character for which `char::is_whitespace` holds) and stops at the
/// first other one: all characters from `p` to the result are white space,
/// and the result is the end of `s` or holds a character that is not.
pub proof fn ws_skip_skips_all_white_space(s: Seq<char>, p: int)
    requires
        0 <= p <= s.len(),
    ensures
        p <= ws_skip(s, p) <= s.len(),
        forall|k: int| p <= k < ws_skip(s, p) ==> is_white_space(s[k]),
        ws_skip(s, p) == s.len() || !is_white_space(s[ws_skip(s, p)]),
        p < s.len() && is_white_space(s[p]) ==> ws_skip(s, p) > p,
    decreases s.len() - p,
{
    if p < s.len() && is_white_space(s[p]) {
        ws_skip_skips_all_white_space(s, p + 1);
    }
}

/// The characters `\t`, `\n`, vertical tab, form feed, `\r` and space are
/// white space.
pub proof fn ascii_white_space()
    ensures
        forall|c: char| 0x9 <= (c as u32) <= 0xd ==> is_white_space(c),
        is_white_space(' '),
        is_white_space('\r'),
        is_white_space('\n'),
{
}

/// Where the `{` of a block that starts at `i` would be.
pub open spec fn head_open(s: Seq<char>, i: int) -> int {
    let a = ws_skip(s, i + "<!--"@.len());
    ws_skip(s, a + metadata_marker().len())
}

/// A block starts at `i`: `<!--`, optional white space, the start marker,
/// at least one white-space character, then `{`.
pub open spec fn has_head(s: Seq<char>, i: int) -> bool {
    let a = ws_skip(s, i + "<!--"@.len());
    let o = ws_skip(s, a + metadata_marker().len());
    &&& occurs_at(s, "<!--"@, i)
    &&& occurs_at(s, metadata_marker(), a)
    &&& o > a + metadata_marker().len()
    &&& o < s.len()
    &&& s[o] == '{'
}

/// After a `}` at `close`: at least one white-space character, the end
/// marker, optional white space, then `-->`.
pub open spec fn has_tail(s: Seq<char>, close: int) -> bool {
    let b = ws_skip(s, close + 1);
    let c = ws_skip(s, b + metadata_end_marker().len());
    &&& b > close + 1
    &&& occurs_at(s, metadata_end_marker(), b)
    &&& occurs_at(s, "-->"@, c)
}

/// A block starts at `i` and its object ends with the `}` at `close`.
pub open spec fn block_at(s: Seq<char>, i: int, close: int) -> bool {
    &&& has_head(s, i)
    &&& head_open(s, i) < close < s.len()
    &&& s[close] == '}'
    &&& has_tail(s, close)
}

/// The block at (`i`, `close`) is the first one: no block starts before
/// `i`, and no block starting at `i` has its object end before `close`.
pub open spec fn first_block(s: Seq<char>, i: int, close: int) -> bool {
    &&& block_at(s, i, close)
    &&& forall|i2: int, c2: int| block_at(s, i2, c2) ==> i <= i2
    &&& forall|c2: int| block_at(s, i, c2) ==> close <= c2
}

/// The JSON object of the first metadata block of `s`, if `s` has one.
pub open spec fn metadata_block(s: Seq<char>) -> Option<Seq<char>> {
    if exists|i: int, c: int| first_block(s, i, c) {
        let (i, c) = choose|i: int, c: int| first_block(s, i, c);
        Some(s.subrange(head_open(s, i), c + 1))
    } else {
        None
    }
}

proof fn lemma_first_close(s: Seq<char>, i: int, c: int)
    requires
        block_at(s, i, c),
        forall|i2: int, c2: int| block_at(s, i2, c2) ==> i <= i2,
    ensures
        exists|c1: int| first_block(s, i, c1),
    decreases c,
{
    if exists|c2: int| block_at(s, i, c2) && c2 < c {
        let c2 = choose|c2: int| block_at(s, i, c2) && c2 < c;
        assert(block_at(s, i, c2));
        assert(c2 >= 0);
        lemma_first_close(s, i, c2);
    } else {
        assert(first_block(s, i, c));
    }
}

proof fn lemma_first_start(s: Seq<char>, i: int, c: int)
    requires
        block_at(s, i, c),
    ensures
        exists|i1: int, c1: int| first_block(s, i1, c1),
    decreases i,
{
    if exists|i2: int, c2: int| block_at(s, i2, c2) && i2 < i {
        let (i2, c2) = choose|i2: int, c2: int| block_at(s, i2, c2) && i2 < i;
        assert(block_at(s, i2, c2));
        assert(i2 >= 0);
        lemma_first_start(s, i2, c2);
    } else {
        lemma_first_close(s, i, c);
    }
}

/// Notes that hold a well-formed metadata block anywhere always yield one;
/// what is yielded is a `{`...`}` object taken from the notes, framed by
/// the block's start and end.
pub proof fn metadata_block_found(s: Seq<char>, i: int, c: int)
    ensures
        block_at(s, i, c) ==> metadata_block(s) is Some,
        metadata_block(s) matches Some(j) ==> j.len() >= 2 && j[0] == '{' && j[j.len() - 1]
            == '}' && exists|i1: int, c1: int|
            block_at(s, i1, c1) && j == s.subrange(head_open(s, i1), c1 + 1),
{
    if block_at(s, i, c) {
        lemma_first_start(s, i, c);
    }
    if exists|i1: int, c1: int| first_block(s, i1, c1) {
        let (i1, c1) = choose|i1: int, c1: int| first_block(s, i1, c1);
        let j = s.subrange(head_open(s, i1), c1 + 1);
        assert(j[0] == s[head_open(s, i1)]);
        assert(j[j.len() - 1] == s[c1]);
        assert(block_at(s, i1, c1));
    }
}

fn skip_ws(cs: &[char], p: usize) -> (q: usize)
    requires
        p <= cs.len(),
    ensures
        q == ws_skip(cs@, p as int),
        p <= q <= cs.len(),
{
    let mut q: usize = p;
    while q < cs.len() && white_space(cs[q])
        invariant
            p <= q <= cs.len(),
            ws_skip(cs@, p as int) == ws_skip(cs@, q as int),
        decreases cs.len() - q,
    {
        q = q + 1;
    }
    q
}

/// Where the `{` of a block starting at `i` is, if one starts there.
fn head_at(cs: &[char], i: usize, open_tok: &[char], marker: &[char]) -> (r: Option<usize>)
    requires
        i <= cs.len(),
        open_tok@ == "<!--"@,
        marker@ == metadata_marker(),
    ensures
        match r {
            Some(o) => has_head(cs@, i as int) && o == head_open(cs@, i as int),
            None => !has_head(cs@, i as int),
        },
{
    if !chars_match_at(cs, open_tok, i) {
        return None;
    }
    let a = skip_ws(cs, i + open_tok.len());
    if !chars_match_at(cs, marker, a) {
        return None;
    }
    let o = skip_ws(cs, a + marker.len());
    if o > a + marker.len() && o < cs.len() && cs[o] == '{' {
        Some(o)
    } else {
        None
    }
}

/// Whether the block's closing part follows the `}` at `close`.
fn tail_at(cs: &[char], close: usize, end_tok: &[char], close_tok: &[char]) -> (r: bool)
    requires
        close < cs.len(),
        end_tok@ == metadata_end_marker(),
        close_tok@ == "-->"@,
    ensures
        r == has_tail(cs@, close as int),
{
    let b = skip_ws(cs, close + 1);
    if b <= close + 1 || !chars_match_at(cs, end_tok, b) {
        return false;
    }
    let c = skip_ws(cs, b + end_tok.len());
    chars_match_at(cs, close_tok, c)
}

/// The JSON object of the first metadata block in release notes `notes`.
pub fn find_metadata_block(notes: &str) -> (r: Option<String>)
    ensures
        match r {
            Some(t) => metadata_block(notes@) == Some(t@),
            None => metadata_block(notes@) is None,
        },
{
    let cs = str_chars(notes);
    let s = cs.as_slice();
    let open_tok = str_chars("<!--");
    let marker = str_chars("BEGIN_RELEASE_METADATA");
    let end_tok = str_chars("END_RELEASE_METADATA");
    let close_tok = str_chars("-->");
    let n = s.len();
    let mut i: usize = 0;
    while i < n
        invariant
            n == s@.len(),
            s@ == notes@,
            i <= n,
            open_tok@ == "<!--"@,
            marker@ == metadata_marker(),
            end_tok@ == metadata_end_marker(),
            close_tok@ == "-->"@,
            forall|i2: int, c2: int| i2 < i ==> !#[trigger] block_at(s@, i2, c2),
        decreases n - i,
    {
        match head_at(s, i, open_tok.as_slice(), marker.as_slice()) {
            None => {},
            Some(o) => {
                let mut close: usize = o + 1;
                while close < n
                    invariant
                        n == s@.len(),
                        s@ == notes@,
                        i < n,
                        forall|i2: int, c2: int| i2 < i ==> !#[trigger] block_at(s@, i2, c2),
                        o < close <= n,
                        has_head(s@, i as int),
                        o == head_open(s@, i as int),
                        end_tok@ == metadata_end_marker(),
                        close_tok@ == "-->"@,
                        forall|c2: int| c2 < close ==> !#[trigger] block_at(s@, i as int, c2),
                    decreases n - close,
                {
                    if s[close] == '}' && tail_at(s, close, end_tok.as_slice(), close_tok.as_slice()) {
                        assert(block_at(s@, i as int, close as int));
                        assert(first_block(s@, i as int, close as int));
                        proof {
                            let (i2, c2) = choose|i2: int, c2: int| first_block(s@, i2, c2);
                            assert(i2 == i);
                            assert(c2 == close);
                        }
                        return Some(string_from_range(s, o, close + 1));
                    }
                    close = close + 1;
                }
            },
        }
        i = i + 1;
    }
    assert forall|i2: int, c2: int| !first_block(s@, i2, c2) by {
        if block_at(s@, i2, c2) {
            assert(occurs_at(s@, "<!--"@, i2));
        }
    }
    None
}

} // verus!
