//! Errors of the launcher, reading a yes/no answer, and the rules by which a
//! download is resumed and checked.

use vstd::prelude::*;
use sha2::Digest;

use crate::text::{chars_equal, str_chars, string_from_chars};

verus! {

/// Everything that can stop the launcher.
#[derive(Debug)]
pub enum LauncherError {
    /// The launcher is older than the release requires.
    OutOfDate,
    /// The release (its tag is held) predates release metadata.
    TooOld(String),
    /// The release metadata is missing or invalid.
    BadMetadata(String),
    /// The release has no asset whose name contains the given text.
    ReleaseAssetNotFound(String),
    /// No version file exists.
    NotInstalled,
    MalformedVersion(String),
    BadVersionFile(String),
    /// What was downloaded from the address held is not what was expected.
    DigestMismatch(String),
    /// The download from the address held was interrupted too often.
    TooManyRetries(String),
    /// Godot could not be started.
    Launch(String),
    /// Godot ended with the exit code held, or by a signal (`None`).
    Exit(Option<i32>),
    Network(String),
    Zip(String),
    Io(String),
    Unknown(String),
}

/// A `LauncherError` with its texts taken as character sequences.
pub enum ErrorView {
    OutOfDate,
    TooOld(Seq<char>),
    BadMetadata(Seq<char>),
    ReleaseAssetNotFound(Seq<char>),
    NotInstalled,
    MalformedVersion(Seq<char>),
    BadVersionFile(Seq<char>),
    DigestMismatch(Seq<char>),
    TooManyRetries(Seq<char>),
    Launch(Seq<char>),
    Exit(Option<i32>),
    Network(Seq<char>),
    Zip(Seq<char>),
    Io(Seq<char>),
    Unknown(Seq<char>),
}

impl View for LauncherError {
    type V = ErrorView;

    open spec fn view(&self) -> ErrorView {
        match self {
            LauncherError::OutOfDate => ErrorView::OutOfDate,
            LauncherError::TooOld(s) => ErrorView::TooOld(s@),
            LauncherError::BadMetadata(s) => ErrorView::BadMetadata(s@),
            LauncherError::ReleaseAssetNotFound(s) => ErrorView::ReleaseAssetNotFound(s@),
            LauncherError::NotInstalled => ErrorView::NotInstalled,
            LauncherError::MalformedVersion(s) => ErrorView::MalformedVersion(s@),
            LauncherError::BadVersionFile(s) => ErrorView::BadVersionFile(s@),
            LauncherError::DigestMismatch(s) => ErrorView::DigestMismatch(s@),
            LauncherError::TooManyRetries(s) => ErrorView::TooManyRetries(s@),
            LauncherError::Launch(s) => ErrorView::Launch(s@),
            LauncherError::Exit(c) => ErrorView::Exit(*c),
            LauncherError::Network(s) => ErrorView::Network(s@),
            LauncherError::Zip(s) => ErrorView::Zip(s@),
            LauncherError::Io(s) => ErrorView::Io(s@),
            LauncherError::Unknown(s) => ErrorView::Unknown(s@),
        }
    }
}

/// Whether Unicode classes `c` as white space (`char::is_whitespace`).
pub open spec fn is_white_space(c: char) -> bool {
    let u: u32 = c as u32;
    (0x9 <= u <= 0xd) || u == 0x20 || u == 0x85 || u == 0xa0 || u == 0x1680 || (0x2000 <= u
        <= 0x200a) || u == 0x2028 || u == 0x2029 || u == 0x202f || u == 0x205f || u == 0x3000
}

/// `s` without its leading white space.
pub open spec fn trim_start_ws(s: Seq<char>) -> Seq<char>
    decreases s.len(),
{
    if s.len() > 0 && is_white_space(s[0]) {
        trim_start_ws(s.drop_first())
    } else {
        s
    }
}

/// `s` without its trailing white space.
pub open spec fn trim_end_ws(s: Seq<char>) -> Seq<char>
    decreases s.len(),
{
    if s.len() > 0 && is_white_space(s.last()) {
        trim_end_ws(s.drop_last())
    } else {
        s
    }
}

/// `c` with an ASCII capital letter made small.
pub open spec fn ascii_lower(c: char) -> char {
    if 'A' <= c <= 'Z' {
        ((c as u32) + 32) as char
    } else {
        c
    }
}

/// What an answer to a yes/no question says: `Some(true)` for `y` or `yes`,
/// `Some(false)` for `n` or `no`, in any case and with white space around
/// it; `None` for anything else. (No character but the ASCII capitals
/// becomes one of these letters under Unicode lowercasing, so comparing
/// case-insensitively in ASCII is the same as lowercasing first.)
pub open spec fn yes_no_answer(input: Seq<char>) -> Option<bool> {
    let t = trim_end_ws(trim_start_ws(input)).map_values(|c: char| ascii_lower(c));
    if t == "y"@ || t == "yes"@ {
        Some(true)
    } else if t == "n"@ || t == "no"@ {
        Some(false)
    } else {
        None
    }
}

/// White space before an answer does not change it.
pub proof fn leading_white_space_is_ignored(c: char, input: Seq<char>)
    requires
        is_white_space(c),
    ensures
        yes_no_answer(seq![c] + input) == yes_no_answer(input),
{
    assert((seq![c] + input).drop_first() =~= input);
}

pub(crate) fn white_space(c: char) -> (r: bool)
    ensures
        r == is_white_space(c),
{
    let u: u32 = c as u32;
    (0x9 <= u && u <= 0xd) || u == 0x20 || u == 0x85 || u == 0xa0 || u == 0x1680 || (0x2000 <= u
        && u <= 0x200a) || u == 0x2028 || u == 0x2029 || u == 0x202f || u == 0x205f || u == 0x3000
}

fn lower_ascii(c: char) -> (r: char)
    ensures
        r == ascii_lower(c),
{
    if 'A' <= c && c <= 'Z' {
        let b: u8 = (c as u32 + 32) as u8;
        b as char
    } else {
        c
    }
}

/// The trimmed, ASCII-lowercased characters of `cs`.
fn normalized_answer(cs: &[char]) -> (r: Vec<char>)
    ensures
        r@ == trim_end_ws(trim_start_ws(cs@)).map_values(|c: char| ascii_lower(c)),
{
    let n: usize = cs.len();
    let mut a: usize = 0;
    assert(cs@.skip(0) =~= cs@);
    while a < n && white_space(cs[a])
        invariant
            a <= n,
            n == cs@.len(),
            trim_start_ws(cs@) == trim_start_ws(cs@.skip(a as int)),
        decreases n - a,
    {
        assert(cs@.skip(a as int).drop_first() =~= cs@.skip(a + 1));
        a = a + 1;
    }
    assert(trim_start_ws(cs@) == cs@.skip(a as int));
    let mut b: usize = n;
    assert(cs@.subrange(a as int, n as int) =~= cs@.skip(a as int));
    while b > a && white_space(cs[b - 1])
        invariant
            a <= b <= n,
            n == cs@.len(),
            trim_start_ws(cs@) == cs@.skip(a as int),
            trim_end_ws(cs@.skip(a as int)) == trim_end_ws(cs@.subrange(a as int, b as int)),
        decreases b - a,
    {
        assert(cs@.subrange(a as int, b as int).drop_last() =~= cs@.subrange(a as int, b - 1));
        b = b - 1;
    }
    assert(trim_end_ws(cs@.skip(a as int)) == cs@.subrange(a as int, b as int));
    let mut out: Vec<char> = Vec::new();
    let mut i: usize = a;
    while i < b
        invariant
            a <= i <= b <= n,
            n == cs@.len(),
            out@ == cs@.subrange(a as int, i as int).map_values(|c: char| ascii_lower(c)),
        decreases b - i,
    {
        out.push(lower_ascii(cs[i]));
        i = i + 1;
        assert(out@ =~= cs@.subrange(a as int, i as int).map_values(|c: char| ascii_lower(c)));
    }
    out
}

/// Reads an answer to a yes/no question (the decision of `prompt_yes_no`):
/// `Some(true)` for yes, `Some(false)` for no, `None` where the question has
/// to be asked again.
pub fn parse_yes_no(input: &str) -> (r: Option<bool>)
    ensures
        r == yes_no_answer(input@),
{
    let cs = str_chars(input);
    let t = normalized_answer(cs.as_slice());
    let y = str_chars("y");
    let yes = str_chars("yes");
    let n = str_chars("n");
    let no = str_chars("no");
    if chars_equal(t.as_slice(), y.as_slice()) || chars_equal(t.as_slice(), yes.as_slice()) {
        Some(true)
    } else if chars_equal(t.as_slice(), n.as_slice()) || chars_equal(t.as_slice(), no.as_slice()) {
        Some(false)
    } else {
        None
    }
}

/// The decimal digit for `d`.
pub open spec fn digit_char(d: nat) -> char {
    if d == 0 { '0' } else if d == 1 { '1' } else if d == 2 { '2' } else if d == 3 { '3' }
    else if d == 4 { '4' } else if d == 5 { '5' } else if d == 6 { '6' } else if d == 7 { '7' }
    else if d == 8 { '8' } else { '9' }
}

/// The decimal notation of `n`, without leading zeros.
pub open spec fn decimal(n: nat) -> Seq<char>
    decreases n,
{
    if n < 10 {
        seq![digit_char(n)]
    } else {
        decimal(n / 10).push(digit_char(n % 10))
    }
}

/// The number that the decimal digits `s` denote.
pub open spec fn digits_value(s: Seq<char>) -> int
    decreases s.len(),
{
    if s.len() == 0 {
        0
    } else {
        10 * digits_value(s.drop_last()) + ((s.last() as u32) - ('0' as u32))
    }
}

proof fn lemma_digit_char(d: nat)
    requires
        d < 10,
    ensures
        (digit_char(d) as u32) - ('0' as u32) == d,
        '0' <= digit_char(d) <= '9',
        d > 0 ==> digit_char(d) != '0',
{
}

/// Reading the decimal notation of `n` back gives `n`, and the notation is
/// digits only, with no leading zero.
pub proof fn decimal_reads_back(n: nat)
    ensures
        digits_value(decimal(n)) == n,
        decimal(n).len() >= 1,
        forall|k: int| 0 <= k < decimal(n).len() ==> '0' <= #[trigger] decimal(n)[k] <= '9',
        n > 0 ==> decimal(n)[0] != '0',
        decimal(n).len() > 1 ==> n >= 10,
    decreases n,
{
    if n < 10 {
        lemma_digit_char(n);
        assert(decimal(n).drop_last() =~= Seq::<char>::empty());
        assert(digits_value(Seq::<char>::empty()) == 0);
        assert(decimal(n).last() == digit_char(n));
    } else {
        decimal_reads_back(n / 10);
        lemma_digit_char(n % 10);
        assert(decimal(n).drop_last() =~= decimal(n / 10));
        assert(decimal(n)[0] == decimal(n / 10)[0]);
        assert(n == 10 * (n / 10) + n % 10);
        assert(decimal(n).last() == digit_char(n % 10));
        assert(digits_value(decimal(n)) == 10 * digits_value(decimal(n / 10)) + ((digit_char(n % 10) as u32) - ('0' as u32)));
        assert(digits_value(decimal(n)) == 10 * (n / 10) + n % 10);
    }
}

fn digit(d: u64) -> (r: char)
    requires
        d < 10,
    ensures
        r == digit_char(d as nat),
{
    if d == 0 { '0' } else if d == 1 { '1' } else if d == 2 { '2' } else if d == 3 { '3' }
    else if d == 4 { '4' } else if d == 5 { '5' } else if d == 6 { '6' } else if d == 7 { '7' }
    else if d == 8 { '8' } else { '9' }
}

fn push_decimal(out: &mut Vec<char>, n: u64)
    ensures
        final(out)@ == old(out)@ + decimal(n as nat),
    decreases n,
{
    if n >= 10 {
        push_decimal(out, n / 10);
    }
    out.push(digit(n % 10));
    assert(final(out)@ =~= old(out)@ + decimal(n as nat));
}

/// The `Range` header value that asks for a download from byte `seek`
/// onwards; `None` for a download from the start, which needs none.
pub fn range_header(seek: u64) -> (r: Option<String>)
    ensures
        match r {
            None => seek == 0,
            Some(h) => seek != 0 && h@ == "bytes="@ + decimal(seek as nat) + "-"@,
        },
{
    if seek == 0 {
        return None;
    }
    let mut cs = str_chars("bytes=");
    push_decimal(&mut cs, seek);
    let dash = str_chars("-");
    proof {
        reveal_strlit("-");
    }
    assert(dash@.len() == 1);
    cs.push(dash[0]);
    assert(cs@ =~= "bytes="@ + decimal(seek as nat) + "-"@);
    Some(string_from_chars(cs.as_slice()))
}

/// How many times a download is resumed before it is given up.
pub const MAX_RETRIES: u32 = 10;

/// What to do once the response stream of a download has ended.
#[derive(Debug, PartialEq, Eq, Structural)]
pub enum DownloadStep {
    /// Every expected byte has arrived.
    Complete,
    /// Ask again for the bytes from `seek` onwards; `tries` resumptions have
    /// then been made.
    Resume { seek: u64, tries: u32 },
    /// Too many resumptions: the download fails.
    GiveUp,
}

/// What follows a response stream that ended with `received` of
/// `total_size` bytes after `tries` resumptions: done when every byte has
/// arrived, else a resumption from the first missing byte, unless that would
/// be one more than `MAX_RETRIES`.
pub open spec fn download_step(total_size: u64, received: u64, tries: u32) -> DownloadStep {
    if received >= total_size {
        DownloadStep::Complete
    } else if tries + 1 > MAX_RETRIES {
        DownloadStep::GiveUp
    } else {
        DownloadStep::Resume { seek: received, tries: (tries + 1) as u32 }
    }
}

/// Decides how a download goes on once a response stream has ended.
pub fn after_stream(total_size: u64, received: u64, tries: u32) -> (r: DownloadStep)
    ensures
        r == download_step(total_size, received, tries),
{
    if received >= total_size {
        DownloadStep::Complete
    } else if tries >= MAX_RETRIES {
        DownloadStep::GiveUp
    } else {
        DownloadStep::Resume { seek: received, tries: tries + 1 }
    }
}

/// A download is resumed at most `MAX_RETRIES` times: each resumption counts
/// one more try and asks for the bytes from the first missing one, and none
/// is made past the limit; a download is complete exactly when no byte is
/// missing.
pub proof fn resumptions_are_bounded(total_size: u64, received: u64, tries: u32)
    ensures
        download_step(total_size, received, tries) matches DownloadStep::Resume { seek, tries: t }
            ==> t == tries + 1 && t <= MAX_RETRIES && seek == received && seek < total_size,
        (download_step(total_size, received, tries) == DownloadStep::Complete) == (received
            >= total_size),
        tries >= MAX_RETRIES ==> !(download_step(total_size, received, tries) is Resume),
{
}

/// The SHA-256 digest of `data`.
pub uninterp spec fn sha256(data: Seq<u8>) -> Seq<u8>;

/// Hashes `data`.
///
/// Trusted: calls `sha2::Sha256::digest` and hands back its 32-byte output,
/// which is what `sha256` names for `data`.
#[verifier::external_body]
fn sha256_digest(data: &[u8]) -> (r: [u8; 32])
    ensures
        r@ == sha256(data@),
{
    sha2::Sha256::digest(data).into()
}

fn same_bytes(a: &[u8; 32], b: &[u8; 32]) -> (r: bool)
    ensures
        r == (a@ == b@),
{
    let mut i: usize = 0;
    while i < 32
        invariant
            i <= 32,
            a@.len() == 32,
            b@.len() == 32,
            forall|j: int| 0 <= j < i ==> a@[j] == b@[j],
        decreases 32 - i,
    {
        if a[i] != b[i] {
            return false;
        }
        i = i + 1;
    }
    assert(a@ =~= b@);
    true
}

/// Whether a finished download from `url` is whole and, where a digest is
/// expected, has that SHA-256 digest. A download of the wrong length, or
/// with another digest, is a `DigestMismatch` for `url`.
pub fn check_download(bytes: &[u8], total_size: u64, expected_digest: Option<&[u8; 32]>, url: &str) -> (r:
    Result<(), LauncherError>)
    ensures
        match r {
            Ok(()) => bytes@.len() == total_size && (expected_digest matches Some(d) ==> sha256(
                bytes@,
            ) == d@),
            Err(e) => e matches LauncherError::DigestMismatch(u) && u@ == url@ && (bytes@.len()
                != total_size || (expected_digest matches Some(d) && sha256(bytes@) != d@)),
        },
{
    if bytes.len() as u64 != total_size {
        return Err(LauncherError::DigestMismatch(url.to_owned()));
    }
    match expected_digest {
        None => Ok(()),
        Some(expected) => {
            let digest = sha256_digest(bytes);
            if same_bytes(&digest, expected) {
                Ok(())
            } else {
                Err(LauncherError::DigestMismatch(url.to_owned()))
            }
        },
    }
}

} // verus!
