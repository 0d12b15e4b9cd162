//! The earlier updater, which installs Godot and Backstitch together from a
//! single release.

use vstd::prelude::*;

use crate::backstitch_update::{chosen_version, version_choice, VersionChoice};
use crate::platform::Platform;
use crate::text::str_equal;

verus! {

/// The name stem of the Godot-with-Backstitch asset for the platform's
/// operating system.
pub open spec fn spec_godot_artifact_prefix(platform: Platform) -> Seq<char> {
    match platform {
        Platform::WindowsX86_64 | Platform::WindowsAarch64 => "godot-with-backstitch-windows"@,
        Platform::LinuxX86_64 | Platform::LinuxAarch64 => "godot-with-backstitch-linux"@,
        Platform::MacOs => "godot-with-backstitch-macos"@,
    }
}

/// The executable inside the unpacked Godot-with-Backstitch editor.
pub open spec fn spec_godot_editor_exe(platform: Platform) -> Seq<char> {
    match platform {
        Platform::WindowsX86_64 | Platform::WindowsAarch64 => "godot.windows.editor.x86_64.exe"@,
        Platform::LinuxX86_64 | Platform::LinuxAarch64 => "godot.linuxbsd.editor.x86_64"@,
        Platform::MacOs => "godot_macos_editor.app/Contents/MacOS/Godot"@,
    }
}

/// The name stem of the Godot-with-Backstitch asset for `platform`.
pub fn godot_artifact_prefix(platform: Platform) -> (r: String)
    ensures
        r@ == spec_godot_artifact_prefix(platform),
{
    match platform {
        Platform::WindowsX86_64 | Platform::WindowsAarch64 => "godot-with-backstitch-windows".to_owned(),
        Platform::LinuxX86_64 | Platform::LinuxAarch64 => "godot-with-backstitch-linux".to_owned(),
        Platform::MacOs => "godot-with-backstitch-macos".to_owned(),
    }
}

/// The executable inside the unpacked editor (the file part of
/// `get_godot_path`).
pub fn godot_editor_exe(platform: Platform) -> (r: String)
    ensures
        r@ == spec_godot_editor_exe(platform),
{
    match platform {
        Platform::WindowsX86_64 | Platform::WindowsAarch64 => "godot.windows.editor.x86_64.exe".to_owned(),
        Platform::LinuxX86_64 | Platform::LinuxAarch64 => "godot.linuxbsd.editor.x86_64".to_owned(),
        Platform::MacOs => "godot_macos_editor.app/Contents/MacOS/Godot".to_owned(),
    }
}

/// How the earlier updater settles the version: nothing installed means an
/// installation, the latest installed means nothing to do, anything else
/// means asking the user.
pub open spec fn update_check_spec(current: Option<Seq<char>>, latest: Seq<char>) -> VersionChoice {
    version_choice(current, latest, true)
}

/// Settles whether the earlier updater installs, keeps, or asks.
pub fn update_check(current_version: Option<&str>, latest_version: &str) -> (r: VersionChoice)
    ensures
        r == update_check_spec(
            match current_version {
                Some(c) => Some(c@),
                None => None,
            },
            latest_version@,
        ),
        r == VersionChoice::Install || r == VersionChoice::UpToDate || r == VersionChoice::Ask,
{
    match current_version {
        None => VersionChoice::Install,
        Some(c) => if str_equal(c, latest_version) {
            VersionChoice::UpToDate
        } else {
            VersionChoice::Ask
        },
    }
}

/// The version the earlier updater records, and whether it replaces Godot
/// and Backstitch afresh (else it only fetches missing parts again), given
/// the installed version, the latest release's tag, and the user's answer
/// (used only where `update_check` asks).
pub fn try_update(current_version: Option<&str>, latest_version: &str, accepted: bool) -> (r: (
    String,
    bool,
))
    ensures
        ({
            let current = match current_version {
                Some(c) => Some(c@),
                None => None,
            };
            let choice = update_check_spec(current, latest_version@);
            let updating = choice == VersionChoice::Install || (choice == VersionChoice::Ask
                && accepted);
            &&& r.1 == updating
            &&& r.0@ == chosen_version(
                choice,
                match current {
                    Some(c) => c,
                    None => latest_version@,
                },
                latest_version@,
                accepted,
            )
        }),
{
    match current_version {
        None => (latest_version.to_owned(), true),
        Some(c) => if str_equal(c, latest_version) {
            (c.to_owned(), false)
        } else if accepted {
            (latest_version.to_owned(), true)
        } else {
            (c.to_owned(), false)
        },
    }
}

} // verus!
