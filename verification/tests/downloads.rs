use backstitch_launcher::launcher::{launch_outcome, version_to_launch, GodotExit};
use backstitch_launcher::backstitch_update::VersionFile;
use backstitch_launcher::patchwork::{update_patchwork, PatchworkError, PatchworkPlan};
use backstitch_launcher::update::{godot_artifact_prefix, godot_editor_exe, try_update, update_check};
use backstitch_launcher::backstitch_update::VersionChoice;
use backstitch_launcher::platform::Platform;
use backstitch_launcher::utils::{
    after_stream, check_download, parse_yes_no, range_header, DownloadStep, LauncherError, MAX_RETRIES,
};

#[test]
fn yes_no_answers() {
    assert_eq!(parse_yes_no("y\n"), Some(true));
    assert_eq!(parse_yes_no("  YES \r\n"), Some(true));
    assert_eq!(parse_yes_no("\u{3000}Yes"), Some(true));
    assert_eq!(parse_yes_no("n"), Some(false));
    assert_eq!(parse_yes_no("No\n"), Some(false));
    assert_eq!(parse_yes_no("maybe"), None);
    assert_eq!(parse_yes_no(""), None);
    assert_eq!(parse_yes_no("y e s"), None);
}

#[test]
fn range_headers() {
    assert_eq!(range_header(0), None);
    assert_eq!(range_header(7).as_deref(), Some("bytes=7-"));
    assert_eq!(range_header(1234567890).as_deref(), Some("bytes=1234567890-"));
    assert_eq!(range_header(10).as_deref(), Some("bytes=10-"));
}

#[test]
fn download_steps() {
    assert_eq!(after_stream(100, 100, 0), DownloadStep::Complete);
    assert_eq!(after_stream(100, 150, 3), DownloadStep::Complete);
    assert_eq!(after_stream(0, 0, 0), DownloadStep::Complete);
    assert_eq!(after_stream(100, 40, 0), DownloadStep::Resume { seek: 40, tries: 1 });
    assert_eq!(after_stream(100, 40, 9), DownloadStep::Resume { seek: 40, tries: 10 });
    assert_eq!(after_stream(100, 40, MAX_RETRIES), DownloadStep::GiveUp);
}

#[test]
fn a_download_resumes_at_most_ten_times() {
    let mut tries: u32 = 0;
    let mut resumptions: u32 = 0;
    loop {
        match after_stream(1000, 10, tries) {
            DownloadStep::Resume { tries: t, .. } => {
                tries = t;
                resumptions += 1;
            }
            DownloadStep::GiveUp => break,
            DownloadStep::Complete => panic!("nothing arrived"),
        }
    }
    assert_eq!(resumptions, 10);
}

#[test]
fn downloads_are_checked() {
    let abc_digest: [u8; 32] = [
        0xba, 0x78, 0x16, 0xbf, 0x8f, 0x01, 0xcf, 0xea, 0x41, 0x41, 0x40, 0xde, 0x5d, 0xae, 0x22, 0x23,
        0xb0, 0x03, 0x61, 0xa3, 0x96, 0x17, 0x7a, 0x9c, 0xb4, 0x10, 0xff, 0x61, 0xf2, 0x00, 0x15, 0xad,
    ];
    assert!(check_download(b"abc", 3, Some(&abc_digest), "https://x/a.zip").is_ok());
    assert!(check_download(b"abc", 3, None, "https://x/a.zip").is_ok());
    match check_download(b"abd", 3, Some(&abc_digest), "https://x/a.zip") {
        Err(LauncherError::DigestMismatch(u)) => assert_eq!(u, "https://x/a.zip"),
        other => panic!("unexpected {:?}", other),
    }
    match check_download(b"ab", 3, None, "https://x/b.zip") {
        Err(LauncherError::DigestMismatch(u)) => assert_eq!(u, "https://x/b.zip"),
        other => panic!("unexpected {:?}", other),
    }
    // The digest handed in is compared with the hash, not with the data.
    let mut data = [0u8; 32];
    data.copy_from_slice(&abc_digest);
    assert!(check_download(&data, 32, Some(&abc_digest), "u").is_err());
}

#[test]
fn earlier_updater_names() {
    assert_eq!(godot_artifact_prefix(Platform::WindowsX86_64), "godot-with-backstitch-windows");
    assert_eq!(godot_artifact_prefix(Platform::LinuxAarch64), "godot-with-backstitch-linux");
    assert_eq!(godot_artifact_prefix(Platform::MacOs), "godot-with-backstitch-macos");
    assert_eq!(godot_editor_exe(Platform::WindowsAarch64), "godot.windows.editor.x86_64.exe");
    assert_eq!(godot_editor_exe(Platform::LinuxX86_64), "godot.linuxbsd.editor.x86_64");
    assert_eq!(godot_editor_exe(Platform::MacOs), "godot_macos_editor.app/Contents/MacOS/Godot");
}

#[test]
fn earlier_updater_decisions() {
    assert_eq!(update_check(None, "v1.0"), VersionChoice::Install);
    assert_eq!(update_check(Some("v1.0"), "v1.0"), VersionChoice::UpToDate);
    assert_eq!(update_check(Some("v0.9"), "v1.0"), VersionChoice::Ask);
    assert_eq!(try_update(None, "v1.0", false), ("v1.0".to_owned(), true));
    assert_eq!(try_update(Some("v1.0"), "v1.0", true), ("v1.0".to_owned(), false));
    assert_eq!(try_update(Some("v0.9"), "v1.0", true), ("v1.0".to_owned(), true));
    assert_eq!(try_update(Some("v0.9"), "v1.0", false), ("v0.9".to_owned(), false));
}

#[test]
fn patchwork_decisions() {
    let names: Vec<String> = vec![
        "patchwork-godot-plugin.zip".to_owned(),
        "godot-with-patchwork-windows.zip".to_owned(),
    ];
    assert_eq!(update_patchwork("v1", "v1", &names), Ok(PatchworkPlan::UpToDate));
    assert_eq!(update_patchwork("", "v1", &names), Ok(PatchworkPlan::Download { godot: 1, plugin: 0 }));
    assert_eq!(update_patchwork("v0", "v1", &vec![names[0].clone()]), Err(PatchworkError::GodotAssetNotFound));
    assert_eq!(update_patchwork("v0", "v1", &vec![names[1].clone()]), Err(PatchworkError::PluginAssetNotFound));
}

#[test]
fn launch_decisions() {
    let v = |b: &str| VersionFile { backstitch_version: b.to_owned(), godot_version: "4.4-stable".to_owned() };
    assert_eq!(version_to_launch(Ok(v("new")), Some(v("old"))).unwrap().backstitch_version, "new");
    assert_eq!(
        version_to_launch(Err(LauncherError::OutOfDate), Some(v("old"))).unwrap().backstitch_version,
        "old"
    );
    assert!(matches!(version_to_launch(Err(LauncherError::OutOfDate), None), Err(LauncherError::OutOfDate)));
    assert!(launch_outcome(GodotExit::Exited { success: true, code: Some(0) }).is_ok());
    assert!(matches!(launch_outcome(GodotExit::Exited { success: false, code: Some(3) }), Err(LauncherError::Exit(Some(3)))));
    assert!(matches!(launch_outcome(GodotExit::NotStarted("no such file".to_owned())), Err(LauncherError::Launch(ref m)) if m == "no such file"));
}
