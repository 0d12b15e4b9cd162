use backstitch_launcher::backstitch_update::{
    launcher_version, try_update, Notice, Release, ReleaseMetadata, ReleaseSource, UpdateAction,
    UpdateEvent, UpdateSession, VersionChoice, VersionFile,
};
use backstitch_launcher::config::CommandConfig;
use backstitch_launcher::utils::LauncherError;

fn body(godot: &str, minimum: &str) -> String {
    format!(
        "Notes\n<!-- BEGIN_RELEASE_METADATA\n{{\"RECOMMENDED_GODOT\": \"{godot}\", \"MINIMUM_LAUNCHER\": \"{minimum}\"}}\nEND_RELEASE_METADATA -->"
    )
}

fn release(tag: &str, godot: &str, minimum: &str) -> Release {
    Release { tag_name: tag.to_owned(), assets: Vec::new(), published_at: (0, 0), body: body(godot, minimum) }
}

fn metadata(godot: &str, minimum: &str) -> ReleaseMetadata {
    ReleaseMetadata { recommended_godot: godot.to_owned(), minimum_launcher: minimum.to_owned() }
}

fn installed(backstitch: &str, godot: &str) -> Option<VersionFile> {
    Some(VersionFile { backstitch_version: backstitch.to_owned(), godot_version: godot.to_owned() })
}

fn session(current: Option<VersionFile>, prerelease: bool, interactive: bool) -> UpdateSession {
    let config = CommandConfig {
        dotnet: None,
        godot_url: None,
        godot_path: None,
        allow_prerelease: if prerelease { Some(true) } else { None },
    };
    UpdateSession::new(current, &config, interactive, launcher_version("0.3.0").unwrap())
}

#[test]
fn prereleases_need_to_be_allowed() {
    let config = CommandConfig { dotnet: None, godot_url: None, godot_path: None, allow_prerelease: Some(false) };
    let mut s = UpdateSession::new(None, &config, true, launcher_version("0.3.0").unwrap());
    let step = try_update(&mut s, UpdateEvent::Begin);
    assert!(matches!(step.action, UpdateAction::FetchLatest { include_prerelease: false }));
}

#[test]
fn fresh_install_runs_through() {
    let mut s = session(None, true, true);
    let step = try_update(&mut s, UpdateEvent::Begin);
    assert!(matches!(step.action, UpdateAction::FetchLatest { include_prerelease: true }));
    let latest = release("v2.0.0", "4.4-stable", "v0.2.0");
    let step = try_update(&mut s, UpdateEvent::LatestFetched(Ok(&latest)));
    match step.action {
        UpdateAction::ParseMetadata { json } => assert!(json.contains("RECOMMENDED_GODOT")),
        other => panic!("unexpected {:?}", other),
    }
    let step = try_update(&mut s, UpdateEvent::MetadataParsed(Ok(metadata("4.4-stable", "v0.2.0"))));
    assert!(matches!(step.action, UpdateAction::Install { source: ReleaseSource::Latest, overwrite: true }));
    match step.notice {
        Notice::LatestVersion { tag, choice } => {
            assert_eq!(tag, "v2.0.0");
            assert_eq!(choice, VersionChoice::Install);
        }
        other => panic!("unexpected {:?}", other),
    }
    let step = try_update(&mut s, UpdateEvent::Installed(Ok(())));
    match step.action {
        UpdateAction::WriteVersionFile { version } => {
            assert_eq!(version.backstitch_version, "v2.0.0");
            assert_eq!(version.godot_version, "4.4-stable");
        }
        other => panic!("unexpected {:?}", other),
    }
    let step = try_update(&mut s, UpdateEvent::VersionWritten(Ok(())));
    match step.action {
        UpdateAction::Finish { version } => assert_eq!(version.backstitch_version, "v2.0.0"),
        other => panic!("unexpected {:?}", other),
    }
    assert!(s.is_finished());
}

#[test]
fn up_to_date_install_only_fills_gaps() {
    let mut s = session(installed("v2.0.0", "4.3-stable"), false, false);
    let step = try_update(&mut s, UpdateEvent::Begin);
    assert!(matches!(step.action, UpdateAction::FetchLatest { include_prerelease: false }));
    let latest = release("v2.0.0", "4.4-stable", "0.1.0");
    try_update(&mut s, UpdateEvent::LatestFetched(Ok(&latest)));
    let step = try_update(&mut s, UpdateEvent::MetadataParsed(Ok(metadata("4.4-stable", "0.1.0"))));
    assert!(matches!(step.action, UpdateAction::Install { source: ReleaseSource::Latest, overwrite: false }));
    assert!(matches!(step.notice, Notice::LatestVersion { choice: VersionChoice::UpToDate, .. }));
}

#[test]
fn declined_update_keeps_the_installed_release() {
    let mut s = session(installed("v1.9.0", "4.3-stable"), false, true);
    try_update(&mut s, UpdateEvent::Begin);
    let latest = release("v2.0.0", "4.4-stable", "0.1.0");
    try_update(&mut s, UpdateEvent::LatestFetched(Ok(&latest)));
    let step = try_update(&mut s, UpdateEvent::MetadataParsed(Ok(metadata("4.4-stable", "0.1.0"))));
    assert!(matches!(step.action, UpdateAction::AskToUpdate));
    let step = try_update(&mut s, UpdateEvent::Answered(false));
    match step.action {
        UpdateAction::FetchRelease { tag } => assert_eq!(tag, "v1.9.0"),
        other => panic!("unexpected {:?}", other),
    }
    let old = release("v1.9.0", "4.3-stable", "0.1.0");
    let step = try_update(&mut s, UpdateEvent::DesiredFetched(Ok(&old)));
    assert!(matches!(step.action, UpdateAction::ParseMetadata { .. }));
    let step = try_update(&mut s, UpdateEvent::MetadataParsed(Ok(metadata("4.3-stable", "0.1.0"))));
    assert!(matches!(step.action, UpdateAction::Install { source: ReleaseSource::Desired, overwrite: false }));
    let step = try_update(&mut s, UpdateEvent::Installed(Ok(())));
    match step.action {
        UpdateAction::WriteVersionFile { version } => {
            assert_eq!(version.backstitch_version, "v1.9.0");
            assert_eq!(version.godot_version, "4.3-stable");
        }
        other => panic!("unexpected {:?}", other),
    }
}

#[test]
fn accepted_update_overwrites() {
    let mut s = session(installed("v1.9.0", "4.3-stable"), false, true);
    try_update(&mut s, UpdateEvent::Begin);
    let latest = release("v2.0.0", "4.4-stable", "0.1.0");
    try_update(&mut s, UpdateEvent::LatestFetched(Ok(&latest)));
    try_update(&mut s, UpdateEvent::MetadataParsed(Ok(metadata("4.4-stable", "0.1.0"))));
    let step = try_update(&mut s, UpdateEvent::Answered(true));
    assert!(matches!(step.action, UpdateAction::Install { source: ReleaseSource::Latest, overwrite: true }));
}

#[test]
fn missing_release_falls_back_to_latest() {
    let mut s = session(installed("209/fixes", "4.3-stable"), false, false);
    try_update(&mut s, UpdateEvent::Begin);
    let latest = release("v2.0.0", "4.4-stable", "0.1.0");
    try_update(&mut s, UpdateEvent::LatestFetched(Ok(&latest)));
    let step = try_update(&mut s, UpdateEvent::MetadataParsed(Ok(metadata("4.4-stable", "0.1.0"))));
    assert!(matches!(step.notice, Notice::LatestVersion { choice: VersionChoice::KeepDevVersion, .. }));
    match step.action {
        UpdateAction::FetchRelease { tag } => assert_eq!(tag, "209/fixes"),
        other => panic!("unexpected {:?}", other),
    }
    let step = try_update(&mut s, UpdateEvent::DesiredFetched(Err(LauncherError::Network("404".to_owned()))));
    assert!(matches!(step.action, UpdateAction::Install { source: ReleaseSource::Latest, overwrite: true }));
    match step.notice {
        Notice::FallingBack { desired } => assert_eq!(desired, "209/fixes"),
        other => panic!("unexpected {:?}", other),
    }
    let step = try_update(&mut s, UpdateEvent::Installed(Ok(())));
    match step.action {
        UpdateAction::WriteVersionFile { version } => {
            assert_eq!(version.backstitch_version, "v2.0.0");
            assert_eq!(version.godot_version, "4.4-stable");
        }
        other => panic!("unexpected {:?}", other),
    }
}

#[test]
fn too_old_latest_release() {
    let mut s = session(None, false, true);
    try_update(&mut s, UpdateEvent::Begin);
    let latest = Release { tag_name: "v1.2.0".to_owned(), assets: Vec::new(), published_at: (0, 0), body: "notes".to_owned() };
    let step = try_update(&mut s, UpdateEvent::LatestFetched(Ok(&latest)));
    assert!(matches!(step.action, UpdateAction::Fail { error: LauncherError::TooOld(ref t) } if t == "v1.2.0"));
    assert!(matches!(step.notice, Notice::NoSupportedVersions));
    assert!(s.is_finished());
}

#[test]
fn launcher_out_of_date() {
    let mut s = session(None, false, true);
    try_update(&mut s, UpdateEvent::Begin);
    let latest = release("v3.0.0", "4.5-stable", "v1.0.0");
    try_update(&mut s, UpdateEvent::LatestFetched(Ok(&latest)));
    let step = try_update(&mut s, UpdateEvent::MetadataParsed(Ok(metadata("4.5-stable", "v1.0.0"))));
    assert!(matches!(step.action, UpdateAction::Fail { error: LauncherError::OutOfDate }));
    assert!(matches!(step.notice, Notice::Quiet));
}

#[test]
fn failures_are_passed_on() {
    let mut s = session(None, false, true);
    try_update(&mut s, UpdateEvent::Begin);
    let step = try_update(&mut s, UpdateEvent::LatestFetched(Err(LauncherError::Network("down".to_owned()))));
    assert!(matches!(step.action, UpdateAction::Fail { error: LauncherError::Network(ref m) } if m == "down"));

    let mut s = session(None, false, true);
    try_update(&mut s, UpdateEvent::Begin);
    let latest = release("v2.0.0", "4.4-stable", "0.1.0");
    try_update(&mut s, UpdateEvent::LatestFetched(Ok(&latest)));
    let step = try_update(&mut s, UpdateEvent::MetadataParsed(Err("expected value".to_owned())));
    assert!(matches!(step.action, UpdateAction::Fail { error: LauncherError::BadMetadata(ref m) } if m == "expected value"));
}

#[test]
fn unexpected_events_end_the_session() {
    let mut s = session(None, false, true);
    let step = try_update(&mut s, UpdateEvent::Answered(true));
    assert!(matches!(step.action, UpdateAction::Fail { error: LauncherError::Unknown(ref m) } if m == "unexpected event"));
    assert!(s.is_finished());
    let step = try_update(&mut s, UpdateEvent::Begin);
    assert!(matches!(step.action, UpdateAction::Fail { .. }));
}
