//! Where the Godot editor for a given version is downloaded from, and where
//! its executable lies once the archive is unpacked.

use vstd::prelude::*;
use vstd::string::*;

use crate::platform::Platform;
use crate::text::{lemma_split_at_sole, sole_index, sole_position, split_at_sole, str_chars, string_from_range};

verus! {

/// Why the download information for a Godot version could not be built.
#[derive(Debug)]
pub enum InfoError {
    /// The version is not of the form `<version>-<flavor>`.
    MalformedVersion(String),
    /// The download address could not be parsed as a URL.
    Unknown(String),
}

/// Where a Godot build is fetched from and where its executable lies.
#[derive(Debug)]
pub struct GodotDownloadInfo {
    /// The download address, as the URL parser serialises it.
    pub url: String,
    /// The executable, relative to the directory the archive is unpacked in.
    pub exe_path: String,
    /// Whether the archive holds its files inside one top-level directory.
    pub nested: bool,
}

/// What `url::Url::parse` makes of `text`: its serialisation, or the
/// message of its error.
pub uninterp spec fn url_parse(text: Seq<char>) -> Result<Seq<char>, Seq<char>>;

/// Parses `text` as an absolute URL.
///
/// Trusted: calls `url::Url::parse`; on success hands back the URL's
/// serialisation (`String::from(url)`), on failure the error's message. Both
/// are what `url_parse` names for `text`.
#[verifier::external_body]
fn parse_url(text: &str) -> (r: Result<String, String>)
    ensures
        match r {
            Ok(u) => url_parse(text@) == Ok::<Seq<char>, Seq<char>>(u@),
            Err(m) => url_parse(text@) == Err::<Seq<char>, Seq<char>>(m@),
        },
{
    match url::Url::parse(text) {
        Ok(u) => Ok(String::from(u)),
        Err(e) => Err(e.to_string()),
    }
}

/// An `InfoError` with its text taken as a character sequence.
pub enum InfoErrorView {
    MalformedVersion(Seq<char>),
    Unknown(Seq<char>),
}

impl View for InfoError {
    type V = InfoErrorView;

    open spec fn view(&self) -> InfoErrorView {
        match self {
            InfoError::MalformedVersion(s) => InfoErrorView::MalformedVersion(s@),
            InfoError::Unknown(s) => InfoErrorView::Unknown(s@),
        }
    }
}

impl View for GodotDownloadInfo {
    type V = (Seq<char>, Seq<char>, bool);

    open spec fn view(&self) -> (Seq<char>, Seq<char>, bool) {
        (self.url@, self.exe_path@, self.nested)
    }
}

/// `r` taken by its views.
pub open spec fn info_result_view(r: Result<GodotDownloadInfo, InfoError>) -> Result<
    (Seq<char>, Seq<char>, bool),
    InfoErrorView,
> {
    match r {
        Ok(i) => Ok(i@),
        Err(e) => Err(e@),
    }
}

/// The download information (address, executable, nesting) for Godot
/// `version` on `platform`: the version must be `<version>-<flavor>` with
/// exactly one `-`, and the address built from it must parse as a URL.
pub open spec fn godot_info(version: Seq<char>, dotnet: bool, platform: Platform) -> Result<
    (Seq<char>, Seq<char>, bool),
    InfoErrorView,
> {
    match split_at_sole(version, '-') {
        None => Err(InfoErrorView::MalformedVersion(version)),
        Some(parts) => match url_parse(
            godot_download_url(
                parts.0,
                parts.1,
                spec_godot_slug(platform, dotnet),
                spec_godot_platform(platform),
            ),
        ) {
            Err(msg) => Err(InfoErrorView::Unknown(msg)),
            Ok(u) => Ok(
                (u, spec_godot_path(platform, dotnet, version), dotnet && platform != Platform::MacOs),
            ),
        },
    }
}

/// The archive name stem ("slug") of a Godot build.
pub open spec fn spec_godot_slug(platform: Platform, dotnet: bool) -> Seq<char> {
    match platform {
        Platform::WindowsX86_64 => if dotnet { "mono_win64"@ } else { "win64.exe"@ },
        Platform::WindowsAarch64 => if dotnet { "mono_windows_arm64"@ } else { "windows_arm64.exe"@ },
        Platform::LinuxX86_64 => if dotnet { "mono_linux_x86_64"@ } else { "linux.x86_64"@ },
        Platform::LinuxAarch64 => if dotnet { "mono_linux_arm64"@ } else { "linux.arm64"@ },
        Platform::MacOs => if dotnet { "mono_macos.universal"@ } else { "macos.universal"@ },
    }
}

/// The .NET build is its own download on every platform: its archive stem
/// starts with `mono_`, the standard build's does not, so the two differ.
pub proof fn dotnet_slug_is_mono(platform: Platform)
    ensures
        "mono_"@.is_prefix_of(spec_godot_slug(platform, true)),
        !"mono_"@.is_prefix_of(spec_godot_slug(platform, false)),
        spec_godot_slug(platform, true) != spec_godot_slug(platform, false),
{
    reveal_strlit("mono_");
    reveal_strlit("mono_win64");
    reveal_strlit("win64.exe");
    reveal_strlit("mono_windows_arm64");
    reveal_strlit("windows_arm64.exe");
    reveal_strlit("mono_linux_x86_64");
    reveal_strlit("linux.x86_64");
    reveal_strlit("mono_linux_arm64");
    reveal_strlit("linux.arm64");
    reveal_strlit("mono_macos.universal");
    reveal_strlit("macos.universal");
    let d = spec_godot_slug(platform, true);
    let n = spec_godot_slug(platform, false);
    assert(d.subrange(0, 5) =~= "mono_"@);
    assert(n[1] != 'o' || n[0] != 'm');
    assert(n.len() >= 5 ==> n.subrange(0, 5)[1] == n[1] && n.subrange(0, 5)[0] == n[0]);
    assert(d[0] == 'm' && d[1] == 'o');
}

/// The platform name that the Godot download service expects.
pub open spec fn spec_godot_platform(platform: Platform) -> Seq<char> {
    match platform {
        Platform::WindowsX86_64 => "windows.64"@,
        Platform::WindowsAarch64 => "windows.arm64"@,
        Platform::LinuxX86_64 => "linux.64"@,
        Platform::LinuxAarch64 => "linux.arm64"@,
        Platform::MacOs => "macos.universal"@,
    }
}

/// The suffix of the executable's name in a Godot archive.
pub open spec fn spec_exe_suffix(platform: Platform) -> Seq<char> {
    match platform {
        Platform::WindowsX86_64 => "win64.exe"@,
        Platform::WindowsAarch64 => "windows_arm64.exe"@,
        Platform::LinuxX86_64 => "linux.x86_64"@,
        Platform::LinuxAarch64 => "linux.arm64"@,
        Platform::MacOs => "macos.universal"@,
    }
}

/// The executable inside the unpacked archive of Godot `version`.
pub open spec fn spec_godot_path(platform: Platform, dotnet: bool, version: Seq<char>) -> Seq<char> {
    match platform {
        Platform::MacOs => if dotnet {
            "Godot_mono.app/Contents/MacOS/Godot"@
        } else {
            "Godot.app/Contents/MacOS/Godot"@
        },
        _ => "Godot_v"@ + version + (if dotnet { "_mono"@ } else { ""@ }) + "_"@
            + spec_exe_suffix(platform),
    }
}

/// The address of the Godot download service for one build.
pub open spec fn godot_download_url(
    short_version: Seq<char>,
    flavor: Seq<char>,
    slug: Seq<char>,
    platform: Seq<char>,
) -> Seq<char> {
    "https://downloads.godotengine.org/?version="@ + short_version + "&flavor="@ + flavor
        + "&slug="@ + slug + ".zip&platform="@ + platform
}

/// The archive name stem of the Godot build for `platform`.
pub fn godot_slug(platform: Platform, dotnet: bool) -> (r: String)
    ensures
        r@ == spec_godot_slug(platform, dotnet),
{
    match platform {
        Platform::WindowsX86_64 => if dotnet { "mono_win64".to_owned() } else { "win64.exe".to_owned() },
        Platform::WindowsAarch64 => if dotnet {
            "mono_windows_arm64".to_owned()
        } else {
            "windows_arm64.exe".to_owned()
        },
        Platform::LinuxX86_64 => if dotnet {
            "mono_linux_x86_64".to_owned()
        } else {
            "linux.x86_64".to_owned()
        },
        Platform::LinuxAarch64 => if dotnet { "mono_linux_arm64".to_owned() } else { "linux.arm64".to_owned() },
        Platform::MacOs => if dotnet {
            "mono_macos.universal".to_owned()
        } else {
            "macos.universal".to_owned()
        },
    }
}

/// The platform name of `platform` for the Godot download service.
pub fn godot_platform(platform: Platform) -> (r: String)
    ensures
        r@ == spec_godot_platform(platform),
{
    match platform {
        Platform::WindowsX86_64 => "windows.64".to_owned(),
        Platform::WindowsAarch64 => "windows.arm64".to_owned(),
        Platform::LinuxX86_64 => "linux.64".to_owned(),
        Platform::LinuxAarch64 => "linux.arm64".to_owned(),
        Platform::MacOs => "macos.universal".to_owned(),
    }
}

fn exe_suffix(platform: Platform) -> (r: String)
    ensures
        r@ == spec_exe_suffix(platform),
{
    match platform {
        Platform::WindowsX86_64 => "win64.exe".to_owned(),
        Platform::WindowsAarch64 => "windows_arm64.exe".to_owned(),
        Platform::LinuxX86_64 => "linux.x86_64".to_owned(),
        Platform::LinuxAarch64 => "linux.arm64".to_owned(),
        Platform::MacOs => "macos.universal".to_owned(),
    }
}

/// The path of the executable inside the unpacked Godot archive.
pub fn godot_path(platform: Platform, dotnet: bool, version: &str) -> (r: String)
    ensures
        r@ == spec_godot_path(platform, dotnet, version@),
{
    match platform {
        Platform::MacOs => if dotnet {
            "Godot_mono.app/Contents/MacOS/Godot".to_owned()
        } else {
            "Godot.app/Contents/MacOS/Godot".to_owned()
        },
        _ => {
            let mut p = "Godot_v".to_owned();
            p.append(version);
            if dotnet {
                p.append("_mono");
            } else {
                p.append("");
            }
            p.append("_");
            let suffix = exe_suffix(platform);
            p.append(suffix.as_str());
            p
        },
    }
}

/// The download information for Godot `version` (such as `4.4-stable`) on
/// `platform`, in its .NET build where `dotnet` holds.
pub fn get_godot_info(version: &str, dotnet: bool, platform: Platform) -> (r: Result<
    GodotDownloadInfo,
    InfoError,
>)
    ensures
        info_result_view(r) == godot_info(version@, dotnet, platform),
{
    let cs = str_chars(version);
    let dash = sole_position(cs.as_slice(), '-');
    let i: usize = match dash {
        None => {
            return Err(InfoError::MalformedVersion(version.to_owned()));
        },
        Some(i) => i,
    };
    assert(sole_index(cs@, '-', i as int));
    assert(i < cs.len());
    proof {
        lemma_split_at_sole(version@, '-', i as int);
    }
    let short_version = string_from_range(cs.as_slice(), 0, i);
    let flavor = string_from_range(cs.as_slice(), i + 1, cs.len());
    assert(short_version@ == version@.take(i as int));
    assert(flavor@ == version@.skip(i + 1));
    let slug = godot_slug(platform, dotnet);
    let plat = godot_platform(platform);
    let mut text = "https://downloads.godotengine.org/?version=".to_owned();
    text.append(short_version.as_str());
    text.append("&flavor=");
    text.append(flavor.as_str());
    text.append("&slug=");
    text.append(slug.as_str());
    text.append(".zip&platform=");
    text.append(plat.as_str());
    let url = match parse_url(text.as_str()) {
        Ok(u) => u,
        Err(m) => {
            return Err(InfoError::Unknown(m));
        },
    };
    let exe_path = godot_path(platform, dotnet, version);
    let nested = dotnet && !platform.is_macos();
    Ok(GodotDownloadInfo { url, exe_path, nested })
}

} // verus!
