//! The platforms the launcher runs on.

use vstd::prelude::*;

verus! {

/// A target the launcher is built for.
#[derive(Clone, Copy, Debug, PartialEq, Eq, Structural)]
pub enum Platform {
    WindowsX86_64,
    WindowsAarch64,
    LinuxX86_64,
    LinuxAarch64,
    MacOs,
}

impl Platform {
    /// Whether the platform is macOS.
    pub fn is_macos(&self) -> (r: bool)
        ensures
            r == (*self is MacOs),
    {
        match self {
            Platform::MacOs => true,
            _ => false,
        }
    }
}

/// The terminal programs to start the launcher in, with the arguments that
/// go before the launcher's path, in the order they are tried: a list of
/// common terminal emulators on Linux, and the Terminal application on
/// macOS. On Windows the launcher is started again directly, with none.
pub open spec fn spec_terminal_candidates(platform: Platform) -> Seq<(Seq<char>, Seq<Seq<char>>)> {
    match platform {
        Platform::LinuxX86_64 | Platform::LinuxAarch64 => seq![
            ("xdg-terminal-exec"@, seq!["--"@]),
            ("x-terminal-emulator"@, seq!["-e"@]),
            ("gnome-terminal"@, seq!["--"@]),
            ("ptyxis"@, seq!["--"@]),
            ("konsole"@, seq!["-e"@]),
            ("xterm"@, seq!["-e"@]),
            ("alacritty"@, seq!["-e"@]),
        ],
        Platform::MacOs => seq![("open"@, seq!["-a"@, "Terminal"@])],
        Platform::WindowsX86_64 | Platform::WindowsAarch64 => seq![],
    }
}

/// `c` taken by its views.
pub open spec fn candidate_view(c: (String, Vec<String>)) -> (Seq<char>, Seq<Seq<char>>) {
    (c.0@, c.1@.map_values(|a: String| a@))
}

fn candidate(program: &str, first: &str, second: Option<&str>) -> (r: (String, Vec<String>))
    ensures
        candidate_view(r) == (program@, match second {
            Some(s) => seq![first@, s@],
            None => seq![first@],
        }),
{
    let mut args: Vec<String> = Vec::new();
    args.push(first.to_owned());
    match second {
        Some(s) => {
            args.push(s.to_owned());
        },
        None => {},
    }
    let r = (program.to_owned(), args);
    assert(candidate_view(r).1 =~= match second {
        Some(s) => seq![first@, s@],
        None => seq![first@],
    });
    r
}

/// The terminal programs to relaunch the launcher in, in the order they are
/// tried (`relaunch_in_terminal` takes the first that starts).
pub fn terminal_candidates(platform: Platform) -> (r: Vec<(String, Vec<String>)>)
    ensures
        r@.map_values(|c: (String, Vec<String>)| candidate_view(c)) == spec_terminal_candidates(
            platform,
        ),
{
    let mut v: Vec<(String, Vec<String>)> = Vec::new();
    match platform {
        Platform::LinuxX86_64 | Platform::LinuxAarch64 => {
            v.push(candidate("xdg-terminal-exec", "--", None));
            v.push(candidate("x-terminal-emulator", "-e", None));
            v.push(candidate("gnome-terminal", "--", None));
            v.push(candidate("ptyxis", "--", None));
            v.push(candidate("konsole", "-e", None));
            v.push(candidate("xterm", "-e", None));
            v.push(candidate("alacritty", "-e", None));
        },
        Platform::MacOs => {
            v.push(candidate("open", "-a", Some("Terminal")));
        },
        Platform::WindowsX86_64 | Platform::WindowsAarch64 => {},
    }
    assert(v@.map_values(|c: (String, Vec<String>)| candidate_view(c)) =~= spec_terminal_candidates(
        platform,
    ));
    v
}

} // verus!
