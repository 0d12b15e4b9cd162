use backstitch_launcher::config::{setup_config, CommandConfig, UseDotnet};

#[test]
fn command_line_takes_precedence_over_file() {
    let command = CommandConfig {
        dotnet: Some(UseDotnet::False),
        godot_url: None,
        godot_path: Some("/cli/godot".to_owned()),
        allow_prerelease: None,
    };
    let file = CommandConfig {
        dotnet: Some(UseDotnet::True),
        godot_url: Some("https://file.example/g.zip".to_owned()),
        godot_path: Some("/file/godot".to_owned()),
        allow_prerelease: Some(true),
    };
    let merged = setup_config(command, Some(file));
    assert_eq!(merged.dotnet, Some(UseDotnet::False));
    assert_eq!(merged.godot_url.as_deref(), Some("https://file.example/g.zip"));
    assert_eq!(merged.godot_path.as_deref(), Some("/cli/godot"));
    assert_eq!(merged.allow_prerelease, Some(true));
}

#[test]
fn without_file_the_command_line_stands() {
    let command = CommandConfig {
        dotnet: Some(UseDotnet::Auto),
        godot_url: None,
        godot_path: None,
        allow_prerelease: Some(false),
    };
    let merged = setup_config(command, None);
    assert_eq!(merged.dotnet, Some(UseDotnet::Auto));
    assert_eq!(merged.godot_url, None);
    assert_eq!(merged.godot_path, None);
    assert_eq!(merged.allow_prerelease, Some(false));
}

#[test]
fn merging_twice_with_the_same_file() {
    let file = || CommandConfig {
        dotnet: None,
        godot_url: Some("https://f/g.zip".to_owned()),
        godot_path: None,
        allow_prerelease: Some(true),
    };
    let command = CommandConfig { dotnet: None, godot_url: None, godot_path: None, allow_prerelease: None };
    let once = setup_config(command, Some(file()));
    let twice = setup_config(
        CommandConfig {
            dotnet: once.dotnet,
            godot_url: once.godot_url.clone(),
            godot_path: once.godot_path.clone(),
            allow_prerelease: once.allow_prerelease,
        },
        Some(file()),
    );
    assert_eq!(once.godot_url, twice.godot_url);
    assert_eq!(once.allow_prerelease, twice.allow_prerelease);
    assert_eq!(once.dotnet, twice.dotnet);
    assert_eq!(once.godot_path, twice.godot_path);
}
