use backstitch_launcher::backstitch_update::{
    acquire_from_release, check_release, decode_hex, desired_version, extract_release_metadata,
    find_asset, get_latest_release_or_prerelease, is_dev_version, launcher_version, parse_digest,
    Asset, DigestError, HexError, Release, ReleaseMetadata, VersionChoice,
};
use backstitch_launcher::utils::LauncherError;

fn release(tag: &str, published: (i64, u32), body: &str) -> Release {
    Release { tag_name: tag.to_owned(), assets: Vec::new(), published_at: published, body: body.to_owned() }
}

fn asset(name: &str) -> Asset {
    Asset { name: name.to_owned(), browser_download_url: format!("https://example.com/{name}"), digest: [0u8; 32] }
}

const BODY: &str = "Release notes.\n<!-- BEGIN_RELEASE_METADATA\n{\"RECOMMENDED_GODOT\": \"4.4-stable\", \"MINIMUM_LAUNCHER\": \"v0.2.0\"}\nEND_RELEASE_METADATA -->\nMore notes.";

#[test]
fn dev_versions_have_a_slash() {
    assert!(is_dev_version("209/fixes"));
    assert!(!is_dev_version("v2.1.0"));
    assert!(!is_dev_version(""));
}

#[test]
fn hex_decoding() {
    assert_eq!(decode_hex(b"00ffA0").unwrap(), vec![0u8, 255, 160]);
    assert_eq!(decode_hex(b"").unwrap(), Vec::<u8>::new());
    assert_eq!(decode_hex(b"abc"), Err(HexError::OddLength));
    assert_eq!(decode_hex(b"0g11"), Err(HexError::InvalidHexCharacter { c: 'g', index: 1 }));
    assert_eq!(decode_hex(b"zz"), Err(HexError::InvalidHexCharacter { c: 'z', index: 0 }));
}

#[test]
fn digests_are_read() {
    let hex = "ba7816bf8f01cfea414140de5dae2223b00361a396177a9cb410ff61f20015ad";
    let d = parse_digest(&format!("sha256:{hex}")).unwrap();
    assert_eq!(d[0], 0xba);
    assert_eq!(d[31], 0xad);
    assert!(matches!(parse_digest(hex), Err(DigestError::MissingSeparator)));
    match parse_digest(&format!("sha1:{hex}")) {
        Err(DigestError::UnsupportedAlgorithm(a)) => assert_eq!(a, "sha1"),
        other => panic!("unexpected {:?}", other),
    }
    assert!(matches!(parse_digest("sha256:abcd"), Err(DigestError::WrongLength)));
    assert!(matches!(parse_digest("sha256:abc"), Err(DigestError::InvalidHex(HexError::OddLength))));
    match parse_digest("sha256:a:") {
        Err(DigestError::InvalidHex(HexError::InvalidHexCharacter { c, index })) => {
            assert_eq!(c, ':');
            assert_eq!(index, 1);
        }
        other => panic!("unexpected {:?}", other),
    }
}

#[test]
fn newest_release_is_picked() {
    let releases = vec![
        release("v2.0.0", (100, 0), ""),
        release("v2.1.0-beta", (300, 5), ""),
        release("v2.0.1", (300, 1), ""),
    ];
    assert_eq!(get_latest_release_or_prerelease(releases).unwrap().tag_name, "v2.1.0-beta");
}

#[test]
fn of_equally_new_releases_the_last_is_picked() {
    let releases = vec![release("a", (5, 5), ""), release("b", (5, 5), ""), release("c", (1, 0), "")];
    assert_eq!(get_latest_release_or_prerelease(releases).unwrap().tag_name, "b");
}

#[test]
fn no_releases_at_all() {
    match get_latest_release_or_prerelease(Vec::new()) {
        Err(LauncherError::ReleaseAssetNotFound(m)) => assert_eq!(m, "No releases found"),
        other => panic!("unexpected {:?}", other),
    }
}

#[test]
fn metadata_block_is_extracted() {
    let json = extract_release_metadata(&release("v2.0.0", (0, 0), BODY)).unwrap();
    assert_eq!(json, "{\"RECOMMENDED_GODOT\": \"4.4-stable\", \"MINIMUM_LAUNCHER\": \"v0.2.0\"}");
}

#[test]
fn releases_without_metadata() {
    match extract_release_metadata(&release("v1.5.0", (0, 0), "old notes")) {
        Err(LauncherError::TooOld(t)) => assert_eq!(t, "v1.5.0"),
        other => panic!("unexpected {:?}", other),
    }
    match extract_release_metadata(&release("v2.0.0", (0, 0), "no block")) {
        Err(LauncherError::BadMetadata(m)) => assert_eq!(m, "No release metadata found"),
        other => panic!("unexpected {:?}", other),
    }
    match extract_release_metadata(&release("v2.0.0", (0, 0), "BEGIN_RELEASE_METADATA but no block")) {
        Err(LauncherError::BadMetadata(m)) => assert_eq!(m, "could not apply regex"),
        other => panic!("unexpected {:?}", other),
    }
}

fn metadata(minimum: &str) -> ReleaseMetadata {
    ReleaseMetadata { recommended_godot: "4.4-stable".to_owned(), minimum_launcher: minimum.to_owned() }
}

#[test]
fn launcher_versions() {
    assert!(launcher_version("0.3.1").is_some());
    assert!(launcher_version("1.2.3-beta.1+build5").is_some());
    assert!(launcher_version("v0.3.1").is_none());
    assert!(launcher_version("").is_none());
}

#[test]
fn release_checks() {
    let launcher = launcher_version("0.3.0").unwrap();
    assert!(check_release(&metadata("v0.2.0"), &launcher).is_ok());
    assert!(check_release(&metadata("0.3.0"), &launcher).is_ok());
    assert!(check_release(&metadata("vv0.2.9"), &launcher).is_ok());
    assert!(matches!(check_release(&metadata("v0.3.1"), &launcher), Err(LauncherError::OutOfDate)));
    assert!(matches!(check_release(&metadata("1.0.0"), &launcher), Err(LauncherError::OutOfDate)));
    match check_release(&metadata("latest"), &launcher) {
        Err(LauncherError::BadMetadata(m)) => assert!(!m.is_empty()),
        other => panic!("unexpected {:?}", other),
    }
}

#[test]
fn prereleases_precede_their_release() {
    let beta = launcher_version("1.0.0-beta.2").unwrap();
    assert!(matches!(check_release(&metadata("1.0.0"), &beta), Err(LauncherError::OutOfDate)));
    assert!(check_release(&metadata("1.0.0-beta.1"), &beta).is_ok());
    assert!(matches!(check_release(&metadata("1.0.0-beta.10"), &beta), Err(LauncherError::OutOfDate)));
}

#[test]
fn version_choices() {
    assert_eq!(desired_version(None, "v2.0.0", true), VersionChoice::Install);
    assert_eq!(desired_version(None, "v2.0.0", false), VersionChoice::Install);
    assert_eq!(desired_version(Some("v2.0.0"), "v2.0.0", true), VersionChoice::UpToDate);
    assert_eq!(desired_version(Some("v1.9.0"), "v2.0.0", true), VersionChoice::Ask);
    assert_eq!(desired_version(Some("v1.9.0"), "v2.0.0", false), VersionChoice::Update);
    assert_eq!(desired_version(Some("209/fixes"), "v2.0.0", false), VersionChoice::KeepDevVersion);
    assert_eq!(desired_version(Some("209/fixes"), "v2.0.0", true), VersionChoice::Ask);
}

#[test]
fn assets_are_found_by_name() {
    let assets = vec![asset("godot-with-backstitch-linux.zip"), asset("backstitch-plugin.zip"), asset("backstitch-extra.zip")];
    assert_eq!(find_asset(&assets, "backstitch"), Some(0));
    assert_eq!(find_asset(&assets, "plugin"), Some(1));
    assert_eq!(find_asset(&assets, "windows"), None);
    let mut rel = release("v2.0.0", (0, 0), "");
    rel.assets = assets;
    assert_eq!(acquire_from_release(&rel, "extra").unwrap().name, "backstitch-extra.zip");
    match acquire_from_release(&rel, "macos") {
        Err(LauncherError::ReleaseAssetNotFound(p)) => assert_eq!(p, "macos"),
        other => panic!("unexpected {:?}", other),
    }
}
