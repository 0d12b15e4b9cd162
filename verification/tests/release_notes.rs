use backstitch_launcher::archive::entry_output_components;
use backstitch_launcher::platform::{terminal_candidates, Platform};
use backstitch_launcher::release_notes::find_metadata_block;

#[test]
fn block_with_surrounding_notes() {
    let notes = "Intro\n<!--   BEGIN_RELEASE_METADATA\n  {\"A\": 1}\n\tEND_RELEASE_METADATA-->\nOutro";
    assert_eq!(find_metadata_block(notes).as_deref(), Some("{\"A\": 1}"));
}

#[test]
fn shortest_object_that_completes_the_block() {
    let notes = "<!-- BEGIN_RELEASE_METADATA {\"a\": \"}\", \"b\": {}} END_RELEASE_METADATA -->";
    assert_eq!(find_metadata_block(notes).as_deref(), Some("{\"a\": \"}\", \"b\": {}}"));
}

#[test]
fn first_of_two_blocks() {
    let notes = "<!--BEGIN_RELEASE_METADATA {1} END_RELEASE_METADATA-->\n<!--BEGIN_RELEASE_METADATA {2} END_RELEASE_METADATA-->";
    assert_eq!(find_metadata_block(notes).as_deref(), Some("{1}"));
}

#[test]
fn malformed_blocks() {
    // White space is needed after the start marker and before the end marker.
    assert_eq!(find_metadata_block("<!-- BEGIN_RELEASE_METADATA{1} END_RELEASE_METADATA -->"), None);
    assert_eq!(find_metadata_block("<!-- BEGIN_RELEASE_METADATA {1}END_RELEASE_METADATA -->"), None);
    assert_eq!(find_metadata_block("<!-- BEGIN_RELEASE_METADATA {1} END_RELEASE_METADATA"), None);
    assert_eq!(find_metadata_block("BEGIN_RELEASE_METADATA {1} END_RELEASE_METADATA -->"), None);
    assert_eq!(find_metadata_block(""), None);
    // A broken first start does not hide a later, complete block.
    assert_eq!(
        find_metadata_block("<!-- BEGIN_RELEASE_METADATA x <!-- BEGIN_RELEASE_METADATA {ok} END_RELEASE_METADATA -->")
            .as_deref(),
        Some("{ok}")
    );
}

#[test]
fn archive_entries() {
    let parts = |v: &[&str]| v.iter().map(|s| s.to_string()).collect::<Vec<String>>();
    assert_eq!(entry_output_components(Some(parts(&["root", "bin", "godot"])), true), Some(parts(&["bin", "godot"])));
    assert_eq!(entry_output_components(Some(parts(&["root", "bin"])), false), Some(parts(&["root", "bin"])));
    assert_eq!(entry_output_components(Some(parts(&["root"])), true), None);
    assert_eq!(entry_output_components(Some(parts(&[])), true), None);
    assert_eq!(entry_output_components::<String>(None, false), None);
}

#[test]
fn terminals_in_order() {
    let linux = terminal_candidates(Platform::LinuxX86_64);
    let names: Vec<&str> = linux.iter().map(|(t, _)| t.as_str()).collect();
    assert_eq!(
        names,
        vec!["xdg-terminal-exec", "x-terminal-emulator", "gnome-terminal", "ptyxis", "konsole", "xterm", "alacritty"]
    );
    assert_eq!(linux[0].1, vec!["--".to_string()]);
    assert_eq!(linux[6].1, vec!["-e".to_string()]);
    let mac = terminal_candidates(Platform::MacOs);
    assert_eq!(mac, vec![("open".to_string(), vec!["-a".to_string(), "Terminal".to_string()])]);
    assert!(terminal_candidates(Platform::WindowsX86_64).is_empty());
}
