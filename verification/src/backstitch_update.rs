//! Choosing, checking and installing Backstitch releases.

use vstd::prelude::*;

use crate::text::{
    chars_have, contains_seq, find_first, first_index, str_chars, str_contains, str_equal,
    str_starts_with, string_from_range, trim_leading, trim_leading_char,
};
use crate::config::CommandConfig;
use crate::release_notes::{find_metadata_block, metadata_block, metadata_marker};
use crate::utils::{ErrorView, LauncherError};

verus! {

/// A downloadable file attached to a release.
#[derive(Debug)]
pub struct Asset {
    pub name: String,
    pub browser_download_url: String,
    /// The SHA-256 digest of the file.
    pub digest: [u8; 32],
}

/// A published Backstitch release.
#[derive(Debug)]
pub struct Release {
    pub tag_name: String,
    pub assets: Vec<Asset>,
    /// When the release was published: seconds since the Unix epoch and the
    /// nanoseconds within that second.
    pub published_at: (i64, u32),
    /// The release notes, which embed the release metadata.
    pub body: String,
}

/// What a release requires and recommends.
#[derive(Debug)]
pub struct ReleaseMetadata {
    /// The Godot version to run the release with.
    pub recommended_godot: String,
    /// The oldest launcher version able to install the release.
    pub minimum_launcher: String,
}

impl View for ReleaseMetadata {
    type V = (Seq<char>, Seq<char>);

    open spec fn view(&self) -> (Seq<char>, Seq<char>) {
        (self.recommended_godot@, self.minimum_launcher@)
    }
}

/// The record of what is installed.
#[derive(Debug, Clone)]
pub struct VersionFile {
    pub backstitch_version: String,
    pub godot_version: String,
}

impl View for VersionFile {
    type V = (Seq<char>, Seq<char>);

    open spec fn view(&self) -> (Seq<char>, Seq<char>) {
        (self.backstitch_version@, self.godot_version@)
    }
}

/// Whether a recorded version names a development build (a pull-request
/// branch such as `209/fixes`), which the launcher never replaces on its own.
pub fn is_dev_version(version: &str) -> (r: bool)
    ensures
        r == version@.contains('/'),
{
    let cs = str_chars(version);
    chars_have(cs.as_slice(), '/')
}

// ---------------------------------------------------------------------------
// Digests
// ---------------------------------------------------------------------------

/// Why a hexadecimal text could not be decoded.
#[derive(Debug, PartialEq, Eq, Structural)]
pub enum HexError {
    /// The byte `c` at byte offset `index` is not a hexadecimal digit.
    InvalidHexCharacter { c: char, index: usize },
    /// The text has an odd number of bytes.
    OddLength,
}

/// Whether `b` is the ASCII code of a hexadecimal digit, of either case.
pub open spec fn is_hex_digit(b: u8) -> bool {
    (48 <= b <= 57) || (65 <= b <= 70) || (97 <= b <= 102)
}

/// The value of the hexadecimal digit `b`.
pub open spec fn hex_digit_value(b: u8) -> int {
    if b <= 57 {
        b - 48
    } else if b <= 70 {
        b - 55
    } else {
        b - 87
    }
}

/// `k` is the first offset of `b` that holds no hexadecimal digit.
pub open spec fn first_bad_hex(b: Seq<u8>, k: int) -> bool {
    0 <= k < b.len() && !is_hex_digit(b[k]) && forall|j: int| 0 <= j < k ==> is_hex_digit(b[j])
}

/// The bytes that the hexadecimal text `b` encodes, two digits a byte,
/// high digit first; an odd length, or else the first byte that is no digit,
/// is an error.
pub open spec fn hex_decode(b: Seq<u8>) -> Result<Seq<u8>, HexError> {
    if b.len() % 2 != 0 {
        Err(HexError::OddLength)
    } else if exists|k: int| first_bad_hex(b, k) {
        let k: int = choose|k: int| first_bad_hex(b, k);
        Err(HexError::InvalidHexCharacter { c: b[k] as char, index: k as usize })
    } else {
        Ok(
            Seq::new(
                (b.len() / 2) as nat,
                |i: int| (hex_digit_value(b[2 * i]) * 16 + hex_digit_value(b[2 * i + 1])) as u8,
            ),
        )
    }
}

fn hex_value(b: u8) -> (r: u8)
    requires
        is_hex_digit(b),
    ensures
        r == hex_digit_value(b),
        r < 16,
{
    if b <= 57 {
        b - 48
    } else if b <= 70 {
        b - 55
    } else {
        b - 87
    }
}

fn is_hex(b: u8) -> (r: bool)
    ensures
        r == is_hex_digit(b),
{
    (48 <= b && b <= 57) || (65 <= b && b <= 70) || (97 <= b && b <= 102)
}

/// Decodes hexadecimal text given as bytes (as `hex::decode` does).
pub fn decode_hex(b: &[u8]) -> (r: Result<Vec<u8>, HexError>)
    ensures
        match r {
            Ok(v) => hex_decode(b@) == Ok::<Seq<u8>, HexError>(v@),
            Err(e) => hex_decode(b@) == Err::<Seq<u8>, HexError>(e),
        },
{
    if b.len() % 2 != 0 {
        return Err(HexError::OddLength);
    }
    let mut k: usize = 0;
    while k < b.len()
        invariant
            k <= b.len(),
            b.len() % 2 == 0,
            forall|j: int| 0 <= j < k ==> is_hex_digit(b@[j]),
        decreases b.len() - k,
    {
        if !is_hex(b[k]) {
            assert(first_bad_hex(b@, k as int));
            proof {
                let w: int = choose|x: int| first_bad_hex(b@, x);
                if w < k {
                    assert(is_hex_digit(b@[w]));
                } else if w > k {
                    assert(is_hex_digit(b@[k as int]));
                }
            }
            return Err(HexError::InvalidHexCharacter { c: b[k] as char, index: k });
        }
        k = k + 1;
    }
    assert(!exists|x: int| first_bad_hex(b@, x));
    let half: usize = b.len() / 2;
    let mut out: Vec<u8> = Vec::new();
    let mut i: usize = 0;
    while i < half
        invariant
            i <= half,
            half * 2 == b.len(),
            forall|j: int| 0 <= j < b.len() ==> is_hex_digit(b@[j]),
            out@.len() == i,
            forall|j: int|
                0 <= j < i ==> out@[j] == (hex_digit_value(b@[2 * j]) * 16 + hex_digit_value(
                    b@[2 * j + 1],
                )) as u8,
        decreases half - i,
    {
        let hi: u8 = hex_value(b[2 * i]);
        let lo: u8 = hex_value(b[2 * i + 1]);
        out.push(hi * 16 + lo);
        i = i + 1;
    }
    assert(out@ =~= Seq::new(
        (b@.len() / 2) as nat,
        |j: int| (hex_digit_value(b@[2 * j]) * 16 + hex_digit_value(b@[2 * j + 1])) as u8,
    ));
    Ok(out)
}

/// Why a release asset's digest text was refused.
#[derive(Debug)]
pub enum DigestError {
    /// The text is not of the form `<algorithm>:<hex>`.
    MissingSeparator,
    /// The algorithm named (held here) is not `sha256`.
    UnsupportedAlgorithm(String),
    /// The digest is not valid hexadecimal.
    InvalidHex(HexError),
    /// The digest does not have 32 bytes.
    WrongLength,
}

/// Reads the digest of a release asset, given as `sha256:<hex>`.
pub fn parse_digest(text: &str) -> (r: Result<[u8; 32], DigestError>)
    ensures
        match first_index(text@, ':') {
            None => r matches Err(DigestError::MissingSeparator),
            Some(i) => if text@.take(i) != "sha256"@ {
                r matches Err(DigestError::UnsupportedAlgorithm(a)) && a@ == text@.take(i)
            } else {
                match hex_decode(vstd::utf8::encode_utf8(text@.skip(i + 1))) {
                    Err(e) => r matches Err(DigestError::InvalidHex(x)) && x == e,
                    Ok(bytes) => if bytes.len() != 32 {
                        r matches Err(DigestError::WrongLength)
                    } else {
                        r matches Ok(d) && d@ == bytes
                    },
                }
            },
        },
{
    let cs = str_chars(text);
    let i: usize = match find_first(cs.as_slice(), ':') {
        None => {
            return Err(DigestError::MissingSeparator);
        },
        Some(i) => i,
    };
    assert(i < cs.len());
    let algorithm = string_from_range(cs.as_slice(), 0, i);
    assert(algorithm@ == text@.take(i as int));
    if !str_equal(algorithm.as_str(), "sha256") {
        return Err(DigestError::UnsupportedAlgorithm(algorithm));
    }
    let hex = string_from_range(cs.as_slice(), i + 1, cs.len());
    assert(hex@ == text@.skip(i + 1));
    let bytes = match decode_hex(hex.as_str().as_bytes()) {
        Err(e) => {
            return Err(DigestError::InvalidHex(e));
        },
        Ok(v) => v,
    };
    if bytes.len() != 32 {
        return Err(DigestError::WrongLength);
    }
    let mut out: [u8; 32] = [0u8; 32];
    let mut k: usize = 0;
    while k < 32
        invariant
            k <= 32,
            bytes@.len() == 32,
            out@.len() == 32,
            forall|j: int| 0 <= j < k ==> out@[j] == bytes@[j],
        decreases 32 - k,
    {
        out[k] = bytes[k];
        k = k + 1;
    }
    assert(out@ =~= bytes@);
    Ok(out)
}

// ---------------------------------------------------------------------------
// Releases
// ---------------------------------------------------------------------------

/// Whether publication time `a` comes strictly before `b`.
pub open spec fn published_before(a: (i64, u32), b: (i64, u32)) -> bool {
    a.0 < b.0 || (a.0 == b.0 && a.1 < b.1)
}

/// `i` is the release that `Iterator::max_by_key` on the publication time
/// picks: none is published later, and every later one in the list is
/// published earlier (of equally recent releases the last one wins).
pub open spec fn is_newest(releases: Seq<Release>, i: int) -> bool {
    &&& 0 <= i < releases.len()
    &&& forall|j: int|
        0 <= j < releases.len() ==> !published_before(
            releases[i].published_at,
            releases[j].published_at,
        )
    &&& forall|j: int|
        i < j < releases.len() ==> published_before(
            releases[j].published_at,
            releases[i].published_at,
        )
}

/// Picks the most recently published of `releases`, pre-releases included.
pub fn get_latest_release_or_prerelease(releases: Vec<Release>) -> (r: Result<
    Release,
    LauncherError,
>)
    ensures
        releases@.len() == 0 <==> r is Err,
        r matches Err(e) ==> e@ == ErrorView::ReleaseAssetNotFound("No releases found"@),
        r matches Ok(rel) ==> exists|i: int| is_newest(releases@, i) && rel == releases@[i],
{
    let mut releases = releases;
    let n: usize = releases.len();
    if n == 0 {
        return Err(LauncherError::ReleaseAssetNotFound("No releases found".to_owned()));
    }
    let mut best: usize = 0;
    let mut k: usize = 1;
    while k < n
        invariant
            1 <= k <= n,
            n == releases@.len(),
            best < k,
            forall|j: int|
                0 <= j < k ==> !published_before(
                    releases@[best as int].published_at,
                    releases@[j].published_at,
                ),
            forall|j: int|
                best < j < k ==> published_before(
                    releases@[j].published_at,
                    releases@[best as int].published_at,
                ),
        decreases n - k,
    {
        let b: (i64, u32) = releases[best].published_at;
        let c: (i64, u32) = releases[k].published_at;
        if !(c.0 < b.0 || (c.0 == b.0 && c.1 < b.1)) {
            best = k;
        }
        k = k + 1;
    }
    let ghost old_releases = releases@;
    assert(is_newest(old_releases, best as int));
    let rel = releases.swap_remove(best);
    Ok(rel)
}

/// What reading the metadata of the release tagged `tag` with notes `body`
/// yields: the JSON text of the metadata block, or why there is none. A
/// release whose notes lack the start marker is too old where its tag starts
/// with `v1`; notes with the marker but no well-formed block are bad metadata.
pub open spec fn extraction(tag: Seq<char>, body: Seq<char>) -> Result<Seq<char>, ErrorView> {
    if !contains_seq(body, metadata_marker()) {
        if "v1"@.is_prefix_of(tag) {
            Err(ErrorView::TooOld(tag))
        } else {
            Err(ErrorView::BadMetadata("No release metadata found"@))
        }
    } else {
        match metadata_block(body) {
            None => Err(ErrorView::BadMetadata("could not apply regex"@)),
            Some(json) => Ok(json),
        }
    }
}

/// `r` taken by its view.
pub open spec fn text_result_view(r: Result<String, LauncherError>) -> Result<Seq<char>, ErrorView> {
    match r {
        Ok(s) => Ok(s@),
        Err(e) => Err(e@),
    }
}

/// The JSON text of the metadata block in the notes of `release`.
pub fn extract_release_metadata(release: &Release) -> (r: Result<String, LauncherError>)
    ensures
        text_result_view(r) == extraction(release.tag_name@, release.body@),
{
    if !str_contains(release.body.as_str(), "BEGIN_RELEASE_METADATA") {
        if str_starts_with(release.tag_name.as_str(), "v1") {
            return Err(LauncherError::TooOld(release.tag_name.clone()));
        }
        return Err(LauncherError::BadMetadata("No release metadata found".to_owned()));
    }
    match find_metadata_block(release.body.as_str()) {
        None => Err(LauncherError::BadMetadata("could not apply regex".to_owned())),
        Some(json) => Ok(json),
    }
}

// ---------------------------------------------------------------------------
// Versions
// ---------------------------------------------------------------------------

/// Declares `semver::Version`.
#[verifier::external_type_specification]
#[verifier::external_body]
pub struct ExSemverVersion(semver::Version);

/// The parts of a semantic version: major, minor and patch numbers, the
/// pre-release and the build metadata texts.
pub type SemverParts = (u64, u64, u64, Seq<char>, Seq<char>);

/// A version read by `semver::Version::parse`, with its parts.
pub struct ParsedVersion {
    major: u64,
    minor: u64,
    patch: u64,
    pre: String,
    build: String,
    inner: semver::Version,
}

impl View for ParsedVersion {
    type V = SemverParts;

    closed spec fn view(&self) -> SemverParts {
        (self.major, self.minor, self.patch, self.pre@, self.build@)
    }
}

/// What `semver::Version::parse` makes of `text`: the version's parts, or
/// the message of its error.
pub uninterp spec fn semver_parse(text: Seq<char>) -> Result<SemverParts, Seq<char>>;

/// Whether version `a` precedes version `b` (`<` on `semver::Version`).
pub uninterp spec fn semver_precedes(a: SemverParts, b: SemverParts) -> bool;

/// Reads a semantic version.
///
/// Trusted: calls `semver::Version::parse`; on success keeps the version and
/// copies out its major, minor and patch numbers and its pre-release and
/// build texts, on failure hands back the error's message. This is what
/// `semver_parse` names for `text`.
#[verifier::external_body]
fn parse_semver(text: &str) -> (r: Result<ParsedVersion, String>)
    ensures
        match r {
            Ok(v) => semver_parse(text@) == Ok::<SemverParts, Seq<char>>(v@),
            Err(m) => semver_parse(text@) == Err::<SemverParts, Seq<char>>(m@),
        },
{
    match semver::Version::parse(text) {
        Ok(v) => Ok(
            ParsedVersion {
                major: v.major,
                minor: v.minor,
                patch: v.patch,
                pre: v.pre.as_str().to_owned(),
                build: v.build.as_str().to_owned(),
                inner: v,
            },
        ),
        Err(e) => Err(e.to_string()),
    }
}

/// Compares two versions.
///
/// Trusted: `a.inner < b.inner` on `semver::Version`, whose order is derived
/// field by field (major, minor, patch, pre-release, build); so it is decided
/// by the first of major, minor and patch that differ, and no version
/// precedes itself. This is what `semver_precedes` names.
#[verifier::external_body]
fn version_precedes(a: &ParsedVersion, b: &ParsedVersion) -> (r: bool)
    ensures
        r == semver_precedes(a@, b@),
        a@.0 != b@.0 ==> r == (a@.0 < b@.0),
        a@.0 == b@.0 && a@.1 != b@.1 ==> r == (a@.1 < b@.1),
        a@.0 == b@.0 && a@.1 == b@.1 && a@.2 != b@.2 ==> r == (a@.2 < b@.2),
        a@ == b@ ==> !r,
{
    a.inner < b.inner
}

/// The version of the running launcher, where `text` is a valid semantic
/// version.
pub fn launcher_version(text: &str) -> (r: Option<ParsedVersion>)
    ensures
        match r {
            Some(v) => semver_parse(text@) == Ok::<SemverParts, Seq<char>>(v@),
            None => semver_parse(text@) is Err,
        },
{
    match parse_semver(text) {
        Ok(v) => Some(v),
        Err(_) => None,
    }
}

/// Whether a launcher of version `launcher` may install a release that needs
/// at least the launcher version `minimum` (a leading `v` is ignored): an
/// unreadable minimum is bad metadata; a launcher that precedes the minimum
/// is out of date.
pub open spec fn release_check(minimum: Seq<char>, launcher: SemverParts) -> Result<(), ErrorView> {
    match semver_parse(trim_leading(minimum, 'v')) {
        Err(m) => Err(ErrorView::BadMetadata(m)),
        Ok(min) => if semver_precedes(launcher, min) {
            Err(ErrorView::OutOfDate)
        } else {
            Ok(())
        },
    }
}

/// `r` taken by its view.
pub open spec fn unit_result_view(r: Result<(), LauncherError>) -> Result<(), ErrorView> {
    match r {
        Ok(()) => Ok(()),
        Err(e) => Err(e@),
    }
}

/// Checks that the running launcher may install a release with `metadata`.
pub fn check_release(metadata: &ReleaseMetadata, launcher: &ParsedVersion) -> (r: Result<
    (),
    LauncherError,
>)
    ensures
        unit_result_view(r) == release_check(metadata.minimum_launcher@, launcher@),
{
    let text = trim_leading_char(metadata.minimum_launcher.as_str(), 'v');
    let min_version = match parse_semver(text.as_str()) {
        Ok(v) => v,
        Err(m) => {
            return Err(LauncherError::BadMetadata(m));
        },
    };
    if version_precedes(launcher, &min_version) {
        return Err(LauncherError::OutOfDate);
    }
    Ok(())
}

// ---------------------------------------------------------------------------
// Which version to install
// ---------------------------------------------------------------------------

/// How the version to install was settled.
#[derive(Debug, Clone, Copy, PartialEq, Eq, Structural)]
pub enum VersionChoice {
    /// Nothing is installed: install the latest release.
    Install,
    /// The installed version is the latest: keep it.
    UpToDate,
    /// No one to ask, and a development build is installed: keep it.
    KeepDevVersion,
    /// No one to ask: update to the latest release.
    Update,
    /// Ask the user whether to update.
    Ask,
}

/// How the version to install is settled, given the installed version (if
/// any), the latest release's tag, and whether there is a terminal to ask in.
pub open spec fn version_choice(current: Option<Seq<char>>, latest: Seq<char>, interactive: bool) -> VersionChoice {
    match current {
        None => VersionChoice::Install,
        Some(c) => if c == latest {
            VersionChoice::UpToDate
        } else if !interactive {
            if c.contains('/') {
                VersionChoice::KeepDevVersion
            } else {
                VersionChoice::Update
            }
        } else {
            VersionChoice::Ask
        },
    }
}

/// The version chosen: the latest for `Install` and `Update`, the installed
/// one for `UpToDate` and `KeepDevVersion`; for `Ask`, the latest where the
/// user `accepted` the update.
pub open spec fn chosen_version(
    choice: VersionChoice,
    current: Seq<char>,
    latest: Seq<char>,
    accepted: bool,
) -> Seq<char> {
    match choice {
        VersionChoice::Install | VersionChoice::Update => latest,
        VersionChoice::UpToDate | VersionChoice::KeepDevVersion => current,
        VersionChoice::Ask => if accepted {
            latest
        } else {
            current
        },
    }
}

/// `o` taken by its view.
pub open spec fn opt_str_view(o: Option<&str>) -> Option<Seq<char>> {
    match o {
        Some(s) => Some(s@),
        None => None,
    }
}

/// Settles which Backstitch version to install, given the installed version
/// (if any), the latest release's tag, and whether the launcher runs in a
/// terminal where the user can be asked.
pub fn desired_version(current_version: Option<&str>, latest_version: &str, interactive: bool) -> (r:
    VersionChoice)
    ensures
        r == version_choice(opt_str_view(current_version), latest_version@, interactive),
{
    match current_version {
        None => VersionChoice::Install,
        Some(c) => if str_equal(c, latest_version) {
            VersionChoice::UpToDate
        } else if !interactive {
            if is_dev_version(c) {
                VersionChoice::KeepDevVersion
            } else {
                VersionChoice::Update
            }
        } else {
            VersionChoice::Ask
        },
    }
}

/// Nothing installed means the latest release is installed; an installed
/// latest release is kept; without a terminal a development build is kept
/// and any other version is updated; the version chosen is always the
/// installed one or the latest.
pub proof fn desired_version_laws(current: Option<Seq<char>>, latest: Seq<char>, interactive: bool, accepted: bool)
    ensures
        current is None ==> version_choice(current, latest, interactive) == VersionChoice::Install,
        current == Some(latest) ==> version_choice(current, latest, interactive)
            == VersionChoice::UpToDate,
        current is Some && current.unwrap() != latest && !interactive ==> (version_choice(
            current,
            latest,
            interactive,
        ) == VersionChoice::KeepDevVersion <==> current.unwrap().contains('/')),
        current is Some ==> {
            let v = chosen_version(
                version_choice(current, latest, interactive),
                current.unwrap(),
                latest,
                accepted,
            );
            v == current.unwrap() || v == latest
        },
        version_choice(current, latest, interactive) == VersionChoice::Ask ==> interactive,
{
}

// ---------------------------------------------------------------------------
// Assets
// ---------------------------------------------------------------------------

/// `i` is the first asset whose name contains `prefix`.
pub open spec fn first_asset_with(assets: Seq<Asset>, prefix: Seq<char>, i: int) -> bool {
    &&& 0 <= i < assets.len()
    &&& contains_seq(assets[i].name@, prefix)
    &&& forall|j: int| 0 <= j < i ==> !contains_seq(assets[j].name@, prefix)
}

/// The index of the first asset whose name contains `prefix`.
pub fn find_asset(assets: &Vec<Asset>, prefix: &str) -> (r: Option<usize>)
    ensures
        match r {
            Some(i) => first_asset_with(assets@, prefix@, i as int),
            None => forall|j: int| 0 <= j < assets@.len() ==> !contains_seq(assets@[j].name@, prefix@),
        },
{
    let mut k: usize = 0;
    while k < assets.len()
        invariant
            k <= assets.len(),
            forall|j: int| 0 <= j < k ==> !contains_seq(assets@[j].name@, prefix@),
        decreases assets.len() - k,
    {
        if str_contains(assets[k].name.as_str(), prefix) {
            return Some(k);
        }
        k = k + 1;
    }
    None
}

/// The asset of `release` to download for the part named by `prefix`; a
/// release without one is refused with `ReleaseAssetNotFound(prefix)`.
pub fn acquire_from_release<'a>(release: &'a Release, prefix: &str) -> (r: Result<&'a Asset, LauncherError>)
    ensures
        match r {
            Ok(a) => exists|i: int| first_asset_with(release.assets@, prefix@, i) && *a == release.assets@[i],
            Err(e) => e@ == ErrorView::ReleaseAssetNotFound(prefix@) && forall|j: int|
                0 <= j < release.assets@.len() ==> !contains_seq(release.assets@[j].name@, prefix@),
        },
{
    match find_asset(&release.assets, prefix) {
        Some(i) => Ok(&release.assets[i]),
        None => Err(LauncherError::ReleaseAssetNotFound(prefix.to_owned())),
    }
}

// ---------------------------------------------------------------------------
// The update session
// ---------------------------------------------------------------------------

/// Which release an installation uses.
#[derive(Debug, Clone, Copy, PartialEq, Eq, Structural)]
pub enum ReleaseSource {
    /// The latest release.
    Latest,
    /// The release of the chosen version, fetched by its tag.
    Desired,
}

/// How far an update has come.
#[derive(Debug)]
pub enum UpdateStage {
    Start,
    AwaitingLatest,
    AwaitingLatestMetadata { latest_tag: String },
    AwaitingAnswer { latest_tag: String, latest_metadata: ReleaseMetadata },
    AwaitingDesired { latest_tag: String, latest_metadata: ReleaseMetadata, desired: String },
    AwaitingDesiredMetadata { latest_tag: String, desired: String },
    AwaitingInstall { latest_tag: String, desired: String, metadata: ReleaseMetadata },
    AwaitingWrite { latest_tag: String, version: VersionFile },
    Finished,
}

/// An `UpdateStage` with its texts taken as character sequences.
pub enum StageView {
    Start,
    AwaitingLatest,
    AwaitingLatestMetadata { latest_tag: Seq<char> },
    AwaitingAnswer { latest_tag: Seq<char>, latest_metadata: (Seq<char>, Seq<char>) },
    AwaitingDesired {
        latest_tag: Seq<char>,
        latest_metadata: (Seq<char>, Seq<char>),
        desired: Seq<char>,
    },
    AwaitingDesiredMetadata { latest_tag: Seq<char>, desired: Seq<char> },
    AwaitingInstall { latest_tag: Seq<char>, desired: Seq<char>, metadata: (Seq<char>, Seq<char>) },
    AwaitingWrite { latest_tag: Seq<char>, version: (Seq<char>, Seq<char>) },
    Finished,
}

impl View for UpdateStage {
    type V = StageView;

    open spec fn view(&self) -> StageView {
        match self {
            UpdateStage::Start => StageView::Start,
            UpdateStage::AwaitingLatest => StageView::AwaitingLatest,
            UpdateStage::AwaitingLatestMetadata { latest_tag } => StageView::AwaitingLatestMetadata {
                latest_tag: latest_tag@,
            },
            UpdateStage::AwaitingAnswer { latest_tag, latest_metadata } => StageView::AwaitingAnswer {
                latest_tag: latest_tag@,
                latest_metadata: latest_metadata@,
            },
            UpdateStage::AwaitingDesired { latest_tag, latest_metadata, desired } =>
                StageView::AwaitingDesired {
                latest_tag: latest_tag@,
                latest_metadata: latest_metadata@,
                desired: desired@,
            },
            UpdateStage::AwaitingDesiredMetadata { latest_tag, desired } =>
                StageView::AwaitingDesiredMetadata { latest_tag: latest_tag@, desired: desired@ },
            UpdateStage::AwaitingInstall { latest_tag, desired, metadata } =>
                StageView::AwaitingInstall {
                latest_tag: latest_tag@,
                desired: desired@,
                metadata: metadata@,
            },
            UpdateStage::AwaitingWrite { latest_tag, version } => StageView::AwaitingWrite {
                latest_tag: latest_tag@,
                version: version@,
            },
            UpdateStage::Finished => StageView::Finished,
        }
    }
}

/// The state of one run of the Backstitch update.
pub struct UpdateSession {
    current: Option<VersionFile>,
    allow_prerelease: bool,
    interactive: bool,
    launcher: ParsedVersion,
    stage: UpdateStage,
}

/// An `UpdateSession` taken by its views.
pub struct SessionView {
    /// The installed versions (Backstitch, Godot), if any.
    pub current: Option<(Seq<char>, Seq<char>)>,
    pub allow_prerelease: bool,
    pub interactive: bool,
    /// The version of the running launcher.
    pub launcher: SemverParts,
    pub stage: StageView,
}

/// `c` taken by its view.
pub open spec fn opt_version_view(c: Option<VersionFile>) -> Option<(Seq<char>, Seq<char>)> {
    match c {
        Some(v) => Some(v@),
        None => None,
    }
}

impl View for UpdateSession {
    type V = SessionView;

    closed spec fn view(&self) -> SessionView {
        SessionView {
            current: opt_version_view(self.current),
            allow_prerelease: self.allow_prerelease,
            interactive: self.interactive,
            launcher: self.launcher@,
            stage: self.stage@,
        }
    }
}

/// Something that happened outside, handed to the update session.
pub enum UpdateEvent<'a> {
    /// The update starts.
    Begin,
    /// The latest release was fetched, or fetching it failed.
    LatestFetched(Result<&'a Release, LauncherError>),
    /// The metadata JSON asked for was parsed, or the parser's message.
    MetadataParsed(Result<ReleaseMetadata, String>),
    /// The user answered the question whether to update.
    Answered(bool),
    /// The release of the chosen version was fetched, or fetching it failed.
    DesiredFetched(Result<&'a Release, LauncherError>),
    /// The release was installed, or installing it failed.
    Installed(Result<(), LauncherError>),
    /// The version file was written, or writing it failed.
    VersionWritten(Result<(), LauncherError>),
}

/// An `UpdateEvent` taken by its views; a release by its tag and its notes.
pub enum EventView {
    Begin,
    LatestFetched(Result<(Seq<char>, Seq<char>), ErrorView>),
    MetadataParsed(Result<(Seq<char>, Seq<char>), Seq<char>>),
    Answered(bool),
    DesiredFetched(Result<(Seq<char>, Seq<char>), ErrorView>),
    Installed(Result<(), ErrorView>),
    VersionWritten(Result<(), ErrorView>),
}

/// `r` taken by the tag and notes of the release.
pub open spec fn fetch_view(r: Result<&Release, LauncherError>) -> Result<(Seq<char>, Seq<char>), ErrorView> {
    match r {
        Ok(rel) => Ok((rel.tag_name@, rel.body@)),
        Err(e) => Err(e@),
    }
}

impl<'a> View for UpdateEvent<'a> {
    type V = EventView;

    open spec fn view(&self) -> EventView {
        match self {
            UpdateEvent::Begin => EventView::Begin,
            UpdateEvent::LatestFetched(r) => EventView::LatestFetched(fetch_view(*r)),
            UpdateEvent::MetadataParsed(r) => EventView::MetadataParsed(
                match r {
                    Ok(m) => Ok(m@),
                    Err(e) => Err(e@),
                },
            ),
            UpdateEvent::Answered(b) => EventView::Answered(*b),
            UpdateEvent::DesiredFetched(r) => EventView::DesiredFetched(fetch_view(*r)),
            UpdateEvent::Installed(r) => EventView::Installed(unit_result_view(*r)),
            UpdateEvent::VersionWritten(r) => EventView::VersionWritten(unit_result_view(*r)),
        }
    }
}

/// What the launcher is to do next for the update.
#[derive(Debug)]
pub enum UpdateAction {
    /// Fetch the latest release: the most recently published one, where
    /// pre-releases are allowed, else the latest stable one.
    FetchLatest { include_prerelease: bool },
    /// Parse the metadata JSON `json` and hand back `MetadataParsed`.
    ParseMetadata { json: String },
    /// Ask the user whether to update, and hand back `Answered`.
    AskToUpdate,
    /// Fetch the release tagged `tag`, and hand back `DesiredFetched`.
    FetchRelease { tag: String },
    /// Install the Backstitch plugin of the release: afresh where
    /// `overwrite` holds, else only where it is missing.
    Install { source: ReleaseSource, overwrite: bool },
    /// Write the version file, and hand back `VersionWritten`.
    WriteVersionFile { version: VersionFile },
    /// The update is complete; `version` is installed.
    Finish { version: VersionFile },
    /// The update failed.
    Fail { error: LauncherError },
}

/// An `UpdateAction` taken by its views.
pub enum ActionView {
    FetchLatest { include_prerelease: bool },
    ParseMetadata { json: Seq<char> },
    AskToUpdate,
    FetchRelease { tag: Seq<char> },
    Install { source: ReleaseSource, overwrite: bool },
    WriteVersionFile { version: (Seq<char>, Seq<char>) },
    Finish { version: (Seq<char>, Seq<char>) },
    Fail { error: ErrorView },
}

impl View for UpdateAction {
    type V = ActionView;

    open spec fn view(&self) -> ActionView {
        match self {
            UpdateAction::FetchLatest { include_prerelease } => ActionView::FetchLatest {
                include_prerelease: *include_prerelease,
            },
            UpdateAction::ParseMetadata { json } => ActionView::ParseMetadata { json: json@ },
            UpdateAction::AskToUpdate => ActionView::AskToUpdate,
            UpdateAction::FetchRelease { tag } => ActionView::FetchRelease { tag: tag@ },
            UpdateAction::Install { source, overwrite } => ActionView::Install {
                source: *source,
                overwrite: *overwrite,
            },
            UpdateAction::WriteVersionFile { version } => ActionView::WriteVersionFile {
                version: version@,
            },
            UpdateAction::Finish { version } => ActionView::Finish { version: version@ },
            UpdateAction::Fail { error } => ActionView::Fail { error: error@ },
        }
    }
}

/// Something to tell the user along with an action.
#[derive(Debug)]
pub enum Notice {
    Quiet,
    /// The latest release is `tag`, and the version was settled by `choice`.
    LatestVersion { tag: String, choice: VersionChoice },
    /// Not even the latest release is supported by this launcher.
    NoSupportedVersions,
    /// The release of version `desired` could not be fetched; the latest is
    /// installed instead.
    FallingBack { desired: String },
}

/// A `Notice` taken by its views.
pub enum NoticeView {
    Quiet,
    LatestVersion { tag: Seq<char>, choice: VersionChoice },
    NoSupportedVersions,
    FallingBack { desired: Seq<char> },
}

impl View for Notice {
    type V = NoticeView;

    open spec fn view(&self) -> NoticeView {
        match self {
            Notice::Quiet => NoticeView::Quiet,
            Notice::LatestVersion { tag, choice } => NoticeView::LatestVersion {
                tag: tag@,
                choice: *choice,
            },
            Notice::NoSupportedVersions => NoticeView::NoSupportedVersions,
            Notice::FallingBack { desired } => NoticeView::FallingBack { desired: desired@ },
        }
    }
}

/// One step of the update: what to do, and what to tell the user.
#[derive(Debug)]
pub struct UpdateStep {
    pub action: UpdateAction,
    pub notice: Notice,
}

/// The stage, action and notice that follow a state.
pub type Transition = (StageView, ActionView, NoticeView);

/// The update ends with `err`.
pub open spec fn failed(err: ErrorView) -> Transition {
    (StageView::Finished, ActionView::Fail { error: err }, NoticeView::Quiet)
}

/// The installed Backstitch version, if any.
pub open spec fn installed_tag(s: SessionView) -> Option<Seq<char>> {
    match s.current {
        Some(c) => Some(c.0),
        None => None,
    }
}

/// Whether installing `desired` replaces the plugin afresh: where nothing is
/// installed or another version is.
pub open spec fn overwrite_needed(s: SessionView, desired: Seq<char>) -> bool {
    match s.current {
        None => true,
        Some(c) => c.0 != desired,
    }
}

/// Install `desired`, described by `metadata`, from `source`.
pub open spec fn install_step(
    s: SessionView,
    latest_tag: Seq<char>,
    desired: Seq<char>,
    metadata: (Seq<char>, Seq<char>),
    source: ReleaseSource,
) -> (StageView, ActionView) {
    (
        StageView::AwaitingInstall { latest_tag, desired, metadata },
        ActionView::Install { source, overwrite: overwrite_needed(s, desired) },
    )
}

/// Go on with `desired` once the latest release (with `metadata`) passed
/// its check: install the latest release where it is the one desired, else
/// fetch the desired release.
pub open spec fn proceed(
    s: SessionView,
    latest_tag: Seq<char>,
    metadata: (Seq<char>, Seq<char>),
    desired: Seq<char>,
) -> (StageView, ActionView) {
    if desired == latest_tag {
        install_step(s, latest_tag, desired, metadata, ReleaseSource::Latest)
    } else {
        (
            StageView::AwaitingDesired { latest_tag, latest_metadata: metadata, desired },
            ActionView::FetchRelease { tag: desired },
        )
    }
}

/// What follows the parsed metadata of the latest release.
pub open spec fn on_latest_metadata(
    s: SessionView,
    latest_tag: Seq<char>,
    metadata: (Seq<char>, Seq<char>),
) -> Transition {
    match release_check(metadata.1, s.launcher) {
        Err(err) => failed(err),
        Ok(()) => {
            let choice = version_choice(installed_tag(s), latest_tag, s.interactive);
            let notice = NoticeView::LatestVersion { tag: latest_tag, choice };
            if choice == VersionChoice::Ask {
                (
                    StageView::AwaitingAnswer { latest_tag, latest_metadata: metadata },
                    ActionView::AskToUpdate,
                    notice,
                )
            } else {
                let current = match installed_tag(s) {
                    Some(c) => c,
                    None => latest_tag,
                };
                let p = proceed(s, latest_tag, metadata, chosen_version(choice, current, latest_tag, false));
                (p.0, p.1, notice)
            }
        },
    }
}

/// The step that follows event `e` in state `s`: its new stage, its action
/// and its notice. An event that the stage does not wait for ends the update
/// with `Unknown("unexpected event")`.
pub open spec fn next(s: SessionView, e: EventView) -> Transition {
    let unexpected = failed(ErrorView::Unknown("unexpected event"@));
    match s.stage {
        StageView::Start => match e {
            EventView::Begin => (
                StageView::AwaitingLatest,
                ActionView::FetchLatest { include_prerelease: s.allow_prerelease },
                NoticeView::Quiet,
            ),
            _ => unexpected,
        },
        StageView::AwaitingLatest => match e {
            EventView::LatestFetched(Err(err)) => failed(err),
            EventView::LatestFetched(Ok(rel)) => match extraction(rel.0, rel.1) {
                Err(err) => (
                    StageView::Finished,
                    ActionView::Fail { error: err },
                    if err is TooOld {
                        NoticeView::NoSupportedVersions
                    } else {
                        NoticeView::Quiet
                    },
                ),
                Ok(json) => (
                    StageView::AwaitingLatestMetadata { latest_tag: rel.0 },
                    ActionView::ParseMetadata { json },
                    NoticeView::Quiet,
                ),
            },
            _ => unexpected,
        },
        StageView::AwaitingLatestMetadata { latest_tag } => match e {
            EventView::MetadataParsed(Err(m)) => failed(ErrorView::BadMetadata(m)),
            EventView::MetadataParsed(Ok(md)) => on_latest_metadata(s, latest_tag, md),
            _ => unexpected,
        },
        StageView::AwaitingAnswer { latest_tag, latest_metadata } => match e {
            EventView::Answered(yes) => {
                let desired = match s.current {
                    Some(c) => if yes {
                        latest_tag
                    } else {
                        c.0
                    },
                    None => latest_tag,
                };
                let p = proceed(s, latest_tag, latest_metadata, desired);
                (p.0, p.1, NoticeView::Quiet)
            },
            _ => unexpected,
        },
        StageView::AwaitingDesired { latest_tag, latest_metadata, desired } => match e {
            EventView::DesiredFetched(Err(_)) => {
                let p = install_step(s, latest_tag, latest_tag, latest_metadata, ReleaseSource::Latest);
                (p.0, p.1, NoticeView::FallingBack { desired })
            },
            EventView::DesiredFetched(Ok(rel)) => match extraction(rel.0, rel.1) {
                Err(err) => failed(err),
                Ok(json) => (
                    StageView::AwaitingDesiredMetadata { latest_tag, desired },
                    ActionView::ParseMetadata { json },
                    NoticeView::Quiet,
                ),
            },
            _ => unexpected,
        },
        StageView::AwaitingDesiredMetadata { latest_tag, desired } => match e {
            EventView::MetadataParsed(Err(m)) => failed(ErrorView::BadMetadata(m)),
            EventView::MetadataParsed(Ok(md)) => match release_check(md.1, s.launcher) {
                Err(err) => failed(err),
                Ok(()) => {
                    let p = install_step(s, latest_tag, desired, md, ReleaseSource::Desired);
                    (p.0, p.1, NoticeView::Quiet)
                },
            },
            _ => unexpected,
        },
        StageView::AwaitingInstall { latest_tag, desired, metadata } => match e {
            EventView::Installed(Err(err)) => failed(err),
            EventView::Installed(Ok(())) => (
                StageView::AwaitingWrite { latest_tag, version: (desired, metadata.0) },
                ActionView::WriteVersionFile { version: (desired, metadata.0) },
                NoticeView::Quiet,
            ),
            _ => unexpected,
        },
        StageView::AwaitingWrite { latest_tag, version } => match e {
            EventView::VersionWritten(Err(err)) => failed(err),
            EventView::VersionWritten(Ok(())) => (
                StageView::Finished,
                ActionView::Finish { version },
                NoticeView::Quiet,
            ),
            _ => unexpected,
        },
        StageView::Finished => unexpected,
    }
}

/// `s` in stage `stage`.
pub open spec fn with_stage(s: SessionView, stage: StageView) -> SessionView {
    SessionView {
        current: s.current,
        allow_prerelease: s.allow_prerelease,
        interactive: s.interactive,
        launcher: s.launcher,
        stage,
    }
}

fn unexpected_event() -> (r: UpdateStep)
    ensures
        r.action@ == failed(ErrorView::Unknown("unexpected event"@)).1,
        r.notice@ == NoticeView::Quiet,
{
    UpdateStep {
        action: UpdateAction::Fail { error: LauncherError::Unknown("unexpected event".to_owned()) },
        notice: Notice::Quiet,
    }
}

fn fail_with(error: LauncherError) -> (r: UpdateStep)
    ensures
        r.action@ == failed(error@).1,
        r.notice@ == NoticeView::Quiet,
{
    UpdateStep { action: UpdateAction::Fail { error }, notice: Notice::Quiet }
}

fn copy_version(v: &VersionFile) -> (r: VersionFile)
    ensures
        r@ == v@,
{
    VersionFile {
        backstitch_version: v.backstitch_version.clone(),
        godot_version: v.godot_version.clone(),
    }
}

impl UpdateSession {
    /// A session that has not started, for a launcher of version `launcher`
    /// with `current` installed and settings `config` (pre-releases are
    /// allowed only where the setting says so); `interactive` tells whether
    /// the user can be asked.
    pub fn new(
        current: Option<VersionFile>,
        config: &CommandConfig,
        interactive: bool,
        launcher: ParsedVersion,
    ) -> (r: UpdateSession)
        ensures
            r@ == (SessionView {
                current: opt_version_view(current),
                allow_prerelease: config.allow_prerelease == Some(true),
                interactive,
                launcher: launcher@,
                stage: StageView::Start,
            }),
    {
        let allow_prerelease = match config.allow_prerelease {
            Some(b) => b,
            None => false,
        };
        UpdateSession { current, allow_prerelease, interactive, launcher, stage: UpdateStage::Start }
    }

    /// Whether the session has ended.
    pub fn is_finished(&self) -> (r: bool)
        ensures
            r == (self@.stage is Finished),
    {
        match self.stage {
            UpdateStage::Finished => true,
            _ => false,
        }
    }

    fn install(
        &mut self,
        latest_tag: String,
        desired: String,
        metadata: ReleaseMetadata,
        source: ReleaseSource,
    ) -> (r: UpdateAction)
        ensures
            final(self)@ == with_stage(
                old(self)@,
                install_step(old(self)@, latest_tag@, desired@, metadata@, source).0,
            ),
            r@ == install_step(old(self)@, latest_tag@, desired@, metadata@, source).1,
    {
        let overwrite = match &self.current {
            None => true,
            Some(c) => !str_equal(c.backstitch_version.as_str(), desired.as_str()),
        };
        self.stage = UpdateStage::AwaitingInstall { latest_tag, desired, metadata };
        UpdateAction::Install { source, overwrite }
    }

    fn proceed(&mut self, latest_tag: String, metadata: ReleaseMetadata, desired: String) -> (r:
        UpdateAction)
        ensures
            final(self)@ == with_stage(
                old(self)@,
                proceed(old(self)@, latest_tag@, metadata@, desired@).0,
            ),
            r@ == proceed(old(self)@, latest_tag@, metadata@, desired@).1,
    {
        if str_equal(desired.as_str(), latest_tag.as_str()) {
            self.install(latest_tag, desired, metadata, ReleaseSource::Latest)
        } else {
            let tag = desired.clone();
            self.stage = UpdateStage::AwaitingDesired { latest_tag, latest_metadata: metadata, desired };
            UpdateAction::FetchRelease { tag }
        }
    }

    fn after_latest_metadata(&mut self, latest_tag: String, metadata: ReleaseMetadata) -> (r:
        UpdateStep)
        ensures
            final(self)@ == with_stage(
                old(self)@,
                on_latest_metadata(old(self)@, latest_tag@, metadata@).0,
            ),
            r.action@ == on_latest_metadata(old(self)@, latest_tag@, metadata@).1,
            r.notice@ == on_latest_metadata(old(self)@, latest_tag@, metadata@).2,
    {
        if let Err(e) = check_release(&metadata, &self.launcher) {
            self.stage = UpdateStage::Finished;
            return fail_with(e);
        }
        let current_tag: Option<&str> = match &self.current {
            Some(c) => Some(c.backstitch_version.as_str()),
            None => None,
        };
        let choice = desired_version(current_tag, latest_tag.as_str(), self.interactive);
        let notice = Notice::LatestVersion { tag: latest_tag.clone(), choice };
        match choice {
            VersionChoice::Ask => {
                self.stage = UpdateStage::AwaitingAnswer { latest_tag, latest_metadata: metadata };
                UpdateStep { action: UpdateAction::AskToUpdate, notice }
            },
            VersionChoice::Install | VersionChoice::Update => {
                let desired = latest_tag.clone();
                let action = self.proceed(latest_tag, metadata, desired);
                UpdateStep { action, notice }
            },
            VersionChoice::UpToDate | VersionChoice::KeepDevVersion => {
                let desired = match &self.current {
                    Some(c) => c.backstitch_version.clone(),
                    None => latest_tag.clone(),
                };
                let action = self.proceed(latest_tag, metadata, desired);
                UpdateStep { action, notice }
            },
        }
    }
}

/// Advances the Backstitch update by one event: the launcher performs the
/// action of each step and hands back what came of it, starting with
/// `Begin`, until the action is `Finish` or `Fail`.
///
/// The update fetches the latest release (the newest one, pre-releases
/// included, where they are allowed), reads its metadata and checks that
/// this launcher may install it; settles the version to install (asking the
/// user where needed); fetches that version's release and checks it in turn
/// unless it is the latest (falling back to the latest where it cannot be
/// fetched); installs the plugin, afresh unless that version is already
/// installed; and records the installed versions.
pub fn try_update(session: &mut UpdateSession, event: UpdateEvent) -> (r: UpdateStep)
    ensures
        final(session)@ == with_stage(old(session)@, next(old(session)@, event@).0),
        r.action@ == next(old(session)@, event@).1,
        r.notice@ == next(old(session)@, event@).2,
{
    let mut stage = UpdateStage::Finished;
    std::mem::swap(&mut stage, &mut session.stage);
    match stage {
        UpdateStage::Start => match event {
            UpdateEvent::Begin => {
                session.stage = UpdateStage::AwaitingLatest;
                UpdateStep {
                    action: UpdateAction::FetchLatest { include_prerelease: session.allow_prerelease },
                    notice: Notice::Quiet,
                }
            },
            _ => unexpected_event(),
        },
        UpdateStage::AwaitingLatest => match event {
            UpdateEvent::LatestFetched(Err(e)) => fail_with(e),
            UpdateEvent::LatestFetched(Ok(rel)) => match extract_release_metadata(rel) {
                Err(e) => {
                    let notice = match &e {
                        LauncherError::TooOld(_) => Notice::NoSupportedVersions,
                        _ => Notice::Quiet,
                    };
                    UpdateStep { action: UpdateAction::Fail { error: e }, notice }
                },
                Ok(json) => {
                    session.stage = UpdateStage::AwaitingLatestMetadata { latest_tag: rel.tag_name.clone() };
                    UpdateStep { action: UpdateAction::ParseMetadata { json }, notice: Notice::Quiet }
                },
            },
            _ => unexpected_event(),
        },
        UpdateStage::AwaitingLatestMetadata { latest_tag } => match event {
            UpdateEvent::MetadataParsed(Err(m)) => fail_with(LauncherError::BadMetadata(m)),
            UpdateEvent::MetadataParsed(Ok(md)) => session.after_latest_metadata(latest_tag, md),
            _ => unexpected_event(),
        },
        UpdateStage::AwaitingAnswer { latest_tag, latest_metadata } => match event {
            UpdateEvent::Answered(yes) => {
                let desired = match &session.current {
                    Some(c) => if yes {
                        latest_tag.clone()
                    } else {
                        c.backstitch_version.clone()
                    },
                    None => latest_tag.clone(),
                };
                let action = session.proceed(latest_tag, latest_metadata, desired);
                UpdateStep { action, notice: Notice::Quiet }
            },
            _ => unexpected_event(),
        },
        UpdateStage::AwaitingDesired { latest_tag, latest_metadata, desired } => match event {
            UpdateEvent::DesiredFetched(Err(_)) => {
                let tag = latest_tag.clone();
                let action = session.install(latest_tag, tag, latest_metadata, ReleaseSource::Latest);
                UpdateStep { action, notice: Notice::FallingBack { desired } }
            },
            UpdateEvent::DesiredFetched(Ok(rel)) => match extract_release_metadata(rel) {
                Err(e) => fail_with(e),
                Ok(json) => {
                    session.stage = UpdateStage::AwaitingDesiredMetadata { latest_tag, desired };
                    UpdateStep { action: UpdateAction::ParseMetadata { json }, notice: Notice::Quiet }
                },
            },
            _ => unexpected_event(),
        },
        UpdateStage::AwaitingDesiredMetadata { latest_tag, desired } => match event {
            UpdateEvent::MetadataParsed(Err(m)) => fail_with(LauncherError::BadMetadata(m)),
            UpdateEvent::MetadataParsed(Ok(md)) => match check_release(&md, &session.launcher) {
                Err(e) => fail_with(e),
                Ok(()) => {
                    let action = session.install(latest_tag, desired, md, ReleaseSource::Desired);
                    UpdateStep { action, notice: Notice::Quiet }
                },
            },
            _ => unexpected_event(),
        },
        UpdateStage::AwaitingInstall { latest_tag, desired, metadata } => match event {
            UpdateEvent::Installed(Err(e)) => fail_with(e),
            UpdateEvent::Installed(Ok(())) => {
                let version = VersionFile {
                    backstitch_version: desired,
                    godot_version: metadata.recommended_godot,
                };
                let written = copy_version(&version);
                session.stage = UpdateStage::AwaitingWrite { latest_tag, version };
                UpdateStep {
                    action: UpdateAction::WriteVersionFile { version: written },
                    notice: Notice::Quiet,
                }
            },
            _ => unexpected_event(),
        },
        UpdateStage::AwaitingWrite { latest_tag, version } => match event {
            UpdateEvent::VersionWritten(Err(e)) => fail_with(e),
            UpdateEvent::VersionWritten(Ok(())) => {
                UpdateStep { action: UpdateAction::Finish { version }, notice: Notice::Quiet }
            },
            _ => unexpected_event(),
        },
        UpdateStage::Finished => unexpected_event(),
    }
}

/// What holds of an update session between steps: a metadata it holds for
/// a release it may install passed `release_check`; the user is only waited
/// for where a version is installed; a version other than the latest is
/// only pursued where it is the installed one; and what is installed or
/// recorded is the latest version or the installed one.
pub open spec fn session_inv(s: SessionView) -> bool {
    match s.stage {
        StageView::AwaitingAnswer { latest_tag, latest_metadata } => release_check(
            latest_metadata.1,
            s.launcher,
        ) is Ok && s.current is Some,
        StageView::AwaitingDesired { latest_tag, latest_metadata, desired } => release_check(
            latest_metadata.1,
            s.launcher,
        ) is Ok && installed_tag(s) == Some(desired) && desired != latest_tag,
        StageView::AwaitingDesiredMetadata { latest_tag, desired } => installed_tag(s) == Some(
            desired,
        ) && desired != latest_tag,
        StageView::AwaitingInstall { latest_tag, desired, metadata } => release_check(
            metadata.1,
            s.launcher,
        ) is Ok && (desired == latest_tag || installed_tag(s) == Some(desired)),
        StageView::AwaitingWrite { latest_tag, version } => version.0 == latest_tag || installed_tag(
            s,
        ) == Some(version.0),
        _ => true,
    }
}

/// A new session satisfies `session_inv`, and every step keeps it.
pub proof fn session_inv_is_kept(s: SessionView, e: EventView)
    ensures
        s.stage is Start ==> session_inv(s),
        session_inv(s) ==> session_inv(with_stage(s, next(s, e).0)),
{
}

/// The launcher installs only a release whose metadata it accepted: an
/// `Install` action leaves the session waiting for the installation of
/// `desired`, with metadata that passed `release_check`.
pub proof fn installs_only_checked_releases(s: SessionView, e: EventView)
    requires
        session_inv(s),
    ensures
        next(s, e).1 is Install ==> (next(s, e).0 matches StageView::AwaitingInstall {
            metadata,
            ..
        } && release_check(metadata.1, s.launcher) is Ok),
{
}

/// The plugin is installed afresh unless the version to install is the one
/// installed already; then only missing parts are fetched again.
pub proof fn keeps_plugin_only_when_unchanged(s: SessionView, e: EventView)
    ensures
        next(s, e).1 matches ActionView::Install { overwrite, .. } ==> (next(
            s,
            e,
        ).0 matches StageView::AwaitingInstall { desired, .. } && overwrite == !(installed_tag(s)
            == Some(desired))),
{
}

/// The version recorded when the update finishes is the latest release or
/// the version that was installed before.
pub proof fn records_latest_or_installed(s: SessionView, e: EventView)
    requires
        session_inv(s),
    ensures
        next(s, e).1 matches ActionView::Finish { version } ==> (s.stage matches StageView::AwaitingWrite {
            latest_tag,
            ..
        } && (version.0 == latest_tag || installed_tag(s) == Some(version.0))),
{
}

/// The user is asked whether to update only in a terminal, and only where a
/// version other than the latest is installed.
pub proof fn asks_only_in_terminal(s: SessionView, e: EventView)
    ensures
        next(s, e).1 is AskToUpdate ==> s.interactive && s.current is Some && (next(
            s,
            e,
        ).0 matches StageView::AwaitingAnswer { latest_tag, .. } && installed_tag(s) != Some(
            latest_tag,
        )),
{
}

/// A failure ends the session, and an ended session stays ended.
pub proof fn failure_ends_session(s: SessionView, e: EventView)
    ensures
        next(s, e).1 is Fail ==> next(s, e).0 is Finished,
        s.stage is Finished ==> next(s, e).0 is Finished && next(s, e).1 is Fail,
{
}

/// The position of a stage in the order an update passes through them.
pub open spec fn stage_rank(stage: StageView) -> nat {
    match stage {
        StageView::Start => 0,
        StageView::AwaitingLatest => 1,
        StageView::AwaitingLatestMetadata { .. } => 2,
        StageView::AwaitingAnswer { .. } => 3,
        StageView::AwaitingDesired { .. } => 4,
        StageView::AwaitingDesiredMetadata { .. } => 5,
        StageView::AwaitingInstall { .. } => 6,
        StageView::AwaitingWrite { .. } => 7,
        StageView::Finished => 8,
    }
}

/// An update never goes back: every step of an unfinished session moves it
/// to a later stage, so a session ends after at most eight steps.
pub proof fn every_step_advances(s: SessionView, e: EventView)
    ensures
        !(s.stage is Finished) ==> stage_rank(next(s, e).0) > stage_rank(s.stage),
        stage_rank(next(s, e).0) <= 8,
{
}

/// The version file records the version that was installed, with the Godot
/// version that its release metadata recommends.
pub proof fn records_installed_version(s: SessionView, e: EventView)
    ensures
        next(s, e).1 matches ActionView::WriteVersionFile { version } ==> (s.stage matches StageView::AwaitingInstall {
            desired,
            metadata,
            ..
        } && version == (desired, metadata.0)),
{
}

/// Pre-releases are looked at only where the settings allow them: the first
/// step of an update fetches the latest release, pre-releases included
/// exactly when they are allowed.
pub proof fn prereleases_only_when_allowed(s: SessionView)
    ensures
        s.stage is Start ==> next(s, EventView::Begin).1 == (ActionView::FetchLatest {
            include_prerelease: s.allow_prerelease,
        }),
{
}

/// How the update goes on once the latest release (tagged `latest_tag`)
/// has metadata `md` that this launcher accepts, for each kind of
/// installation:
/// - nothing installed: the latest release is installed afresh;
/// - the latest installed: it is kept, only missing parts fetched again;
/// - another, non-development version installed and no terminal: the
///   latest release is installed afresh, and recorded with the Godot version
///   it recommends;
/// - a development build installed and no terminal: that build's release is
///   fetched to be kept;
/// - another version installed and a terminal: the user is asked.
pub proof fn latest_metadata_outcomes(s: SessionView, latest_tag: Seq<char>, md: (Seq<char>, Seq<char>))
    requires
        s.stage == (StageView::AwaitingLatestMetadata { latest_tag }),
        release_check(md.1, s.launcher) is Ok,
    ensures
        s.current is None ==> next(s, EventView::MetadataParsed(Ok(md))).1 == (ActionView::Install {
            source: ReleaseSource::Latest,
            overwrite: true,
        }) && next(s, EventView::MetadataParsed(Ok(md))).0 == (StageView::AwaitingInstall {
            latest_tag,
            desired: latest_tag,
            metadata: md,
        }),
        s.current is Some && s.current.unwrap().0 == latest_tag ==> next(
            s,
            EventView::MetadataParsed(Ok(md)),
        ).1 == (ActionView::Install { source: ReleaseSource::Latest, overwrite: false }),
        s.current is Some && s.current.unwrap().0 != latest_tag && !s.interactive
            && !s.current.unwrap().0.contains('/') ==> {
            let t = next(s, EventView::MetadataParsed(Ok(md)));
            &&& t.1 == (ActionView::Install { source: ReleaseSource::Latest, overwrite: true })
            &&& t.0 == (StageView::AwaitingInstall { latest_tag, desired: latest_tag, metadata: md })
            &&& next(with_stage(s, t.0), EventView::Installed(Ok(()))).1 == (
            ActionView::WriteVersionFile { version: (latest_tag, md.0) })
        },
        s.current is Some && s.current.unwrap().0 != latest_tag && !s.interactive
            && s.current.unwrap().0.contains('/') ==> next(s, EventView::MetadataParsed(Ok(md))).1
            == (ActionView::FetchRelease { tag: s.current.unwrap().0 }),
        s.current is Some && s.current.unwrap().0 != latest_tag && s.interactive ==> next(
            s,
            EventView::MetadataParsed(Ok(md)),
        ).1 == ActionView::AskToUpdate,
{
}

/// The user's answer settles the version: yes installs the latest release
/// afresh, no fetches the installed version's release to keep it.
pub proof fn answer_outcomes(s: SessionView, latest_tag: Seq<char>, md: (Seq<char>, Seq<char>), yes: bool)
    requires
        s.stage == (StageView::AwaitingAnswer { latest_tag, latest_metadata: md }),
        s.current is Some,
        s.current.unwrap().0 != latest_tag,
    ensures
        yes ==> next(s, EventView::Answered(yes)).1 == (ActionView::Install {
            source: ReleaseSource::Latest,
            overwrite: true,
        }),
        !yes ==> next(s, EventView::Answered(yes)).1 == (ActionView::FetchRelease {
            tag: s.current.unwrap().0,
        }),
{
}

} // verus!
