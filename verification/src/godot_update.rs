//! Settling which Godot executable the launcher runs.

use vstd::prelude::*;

use crate::config::{CommandConfig, UseDotnet};
use crate::godot_urls::{get_godot_info, godot_info, InfoError, InfoErrorView};
use crate::platform::Platform;
use crate::text::{chars_equal, str_chars, str_equal};

verus! {

/// Where the Godot executable comes from.
#[derive(Debug)]
pub enum GodotPlan {
    /// Run the executable at `path`, which the user gave.
    UseExisting { path: String },
    /// Run the executable `exe_path` inside the Godot directory, downloading
    /// the archive from `url` first unless `reuse_if_present` holds and the
    /// executable is already there; `nested` tells whether the archive holds
    /// its files in one top-level directory.
    Acquire { url: String, exe_path: String, nested: bool, reuse_if_present: bool },
}

/// A `GodotPlan` taken by its views.
pub enum GodotPlanView {
    UseExisting { path: Seq<char> },
    Acquire { url: Seq<char>, exe_path: Seq<char>, nested: bool, reuse_if_present: bool },
}

impl View for GodotPlan {
    type V = GodotPlanView;

    open spec fn view(&self) -> GodotPlanView {
        match self {
            GodotPlan::UseExisting { path } => GodotPlanView::UseExisting { path: path@ },
            GodotPlan::Acquire { url, exe_path, nested, reuse_if_present } => GodotPlanView::Acquire {
                url: url@,
                exe_path: exe_path@,
                nested: *nested,
                reuse_if_present: *reuse_if_present,
            },
        }
    }
}

/// Whether the .NET build is used: as configured, and by what was detected
/// in the project where the setting is `auto` or missing.
pub open spec fn dotnet_wanted(setting: Option<UseDotnet>, detected: bool) -> bool {
    match setting {
        Some(UseDotnet::True) => true,
        Some(UseDotnet::False) => false,
        _ => detected,
    }
}

/// Whether the project must be searched for .NET files before Godot is
/// settled: where no executable was given and .NET use is `auto` or unset.
pub fn needs_dotnet_detection(config: &CommandConfig) -> (r: bool)
    ensures
        r == (config.godot_path is None && !(config.dotnet == Some(UseDotnet::True)
            || config.dotnet == Some(UseDotnet::False))),
{
    if config.godot_path.is_some() {
        return false;
    }
    match config.dotnet {
        Some(UseDotnet::True) | Some(UseDotnet::False) => false,
        _ => true,
    }
}

/// The plan for Godot given the settings: a configured executable wins;
/// else the official build for `new_version` (the .NET one where wanted),
/// downloaded from the configured address where there is one, and kept if
/// present where the Godot version has not changed.
pub open spec fn godot_plan(
    config: CommandConfig,
    old_version: Option<Seq<char>>,
    new_version: Seq<char>,
    platform: Platform,
    detected_dotnet: bool,
) -> Result<GodotPlanView, InfoErrorView> {
    match config.godot_path {
        Some(p) => Ok(GodotPlanView::UseExisting { path: p@ }),
        None => match godot_info(new_version, dotnet_wanted(config.dotnet, detected_dotnet), platform) {
            Err(e) => Err(e),
            Ok(info) => Ok(
                GodotPlanView::Acquire {
                    url: match config.godot_url {
                        Some(u) => u@,
                        None => info.0,
                    },
                    exe_path: info.1,
                    nested: info.2,
                    reuse_if_present: old_version == Some(new_version),
                },
            ),
        },
    }
}

/// `r` taken by its views.
pub open spec fn plan_result_view(r: Result<GodotPlan, InfoError>) -> Result<GodotPlanView, InfoErrorView> {
    match r {
        Ok(p) => Ok(p@),
        Err(e) => Err(e@),
    }
}

/// Settles where the Godot executable for Godot `new_version` comes from,
/// given the Godot version installed before (if any) and, where
/// `needs_dotnet_detection` holds, whether the project uses .NET.
pub fn try_update(
    config: &CommandConfig,
    old_version: Option<&str>,
    new_version: &str,
    platform: Platform,
    detected_dotnet: bool,
) -> (r: Result<GodotPlan, InfoError>)
    ensures
        plan_result_view(r) == godot_plan(
            *config,
            match old_version {
                Some(v) => Some(v@),
                None => None,
            },
            new_version@,
            platform,
            detected_dotnet,
        ),
{
    if let Some(path) = &config.godot_path {
        return Ok(GodotPlan::UseExisting { path: path.clone() });
    }
    let dotnet = match config.dotnet {
        Some(UseDotnet::True) => true,
        Some(UseDotnet::False) => false,
        _ => detected_dotnet,
    };
    let info = get_godot_info(new_version, dotnet, platform)?;
    let url = match &config.godot_url {
        Some(u) => u.clone(),
        None => info.url,
    };
    let reuse_if_present = match old_version {
        Some(v) => str_equal(v, new_version),
        None => false,
    };
    Ok(GodotPlan::Acquire { url, exe_path: info.exe_path, nested: info.nested, reuse_if_present })
}

/// A configured executable is used whatever else is configured; a
/// configured download address replaces the official one but leaves the
/// executable's place as it is; an existing download is kept only where the
/// Godot version is unchanged.
pub proof fn godot_plan_laws(
    config: CommandConfig,
    old_version: Option<Seq<char>>,
    new_version: Seq<char>,
    platform: Platform,
    detected_dotnet: bool,
)
    ensures
        config.godot_path matches Some(p) ==> godot_plan(
            config,
            old_version,
            new_version,
            platform,
            detected_dotnet,
        ) == Ok::<GodotPlanView, InfoErrorView>(GodotPlanView::UseExisting { path: p@ }),
        godot_plan(config, old_version, new_version, platform, detected_dotnet) matches Ok(
            GodotPlanView::Acquire { url, exe_path, reuse_if_present, .. },
        ) ==> (config.godot_url matches Some(u) ==> url == u@) && exe_path == godot_info(
            new_version,
            dotnet_wanted(config.dotnet, detected_dotnet),
            platform,
        )->Ok_0.1 && (reuse_if_present <==> old_version == Some(new_version)),
{
}

/// An unset .NET setting behaves as `auto`: the plan is the one for `auto`,
/// and where the project is detected as a .NET one it is the plan for the
/// .NET build, otherwise the one for the standard build.
pub proof fn unset_dotnet_is_auto(
    config: CommandConfig,
    old_version: Option<Seq<char>>,
    new_version: Seq<char>,
    platform: Platform,
    detected_dotnet: bool,
)
    requires
        config.dotnet is None,
    ensures
        godot_plan(config, old_version, new_version, platform, detected_dotnet) == godot_plan(
            CommandConfig { dotnet: Some(UseDotnet::Auto), ..config },
            old_version,
            new_version,
            platform,
            detected_dotnet,
        ),
        godot_plan(config, old_version, new_version, platform, detected_dotnet) == godot_plan(
            CommandConfig {
                dotnet: Some(if detected_dotnet { UseDotnet::True } else { UseDotnet::False }),
                ..config
            },
            old_version,
            new_version,
            platform,
            !detected_dotnet,
        ),
{
}

/// `i` is the last index of `name` that holds a dot.
pub open spec fn last_dot_at(name: Seq<char>, i: int) -> bool {
    0 <= i < name.len() && name[i] == '.' && forall|j: int| i < j < name.len() ==> name[j] != '.'
}

/// The extension of the plain file name `name` (`Path::extension`): the
/// text after its last dot, where that dot is not the first character.
pub open spec fn file_extension(name: Seq<char>) -> Option<Seq<char>> {
    if exists|i: int| last_dot_at(name, i) {
        let i: int = choose|i: int| last_dot_at(name, i);
        if i == 0 {
            None
        } else {
            Some(name.skip(i + 1))
        }
    } else {
        None
    }
}

/// Whether a file named `name` belongs to a .NET project: its extension is
/// `csproj` or `sln`.
pub open spec fn is_dotnet_file(name: Seq<char>) -> bool {
    file_extension(name) == Some("csproj"@) || file_extension(name) == Some("sln"@)
}

/// A file named `<stem>.csproj` or `<stem>.sln`, with a stem that is not
/// empty, belongs to a .NET project; a name with no dot, or whose only dot
/// is its first character, has no extension.
pub proof fn dotnet_file_names(stem: Seq<char>)
    ensures
        stem.len() > 0 ==> is_dotnet_file(stem + ".csproj"@) && is_dotnet_file(stem + ".sln"@),
        !stem.contains('.') ==> file_extension(stem) is None && file_extension(seq!['.'] + stem)
            is None,
{
    reveal_strlit(".csproj");
    reveal_strlit(".sln");
    reveal_strlit("csproj");
    reveal_strlit("sln");
    if stem.len() > 0 {
        let a = stem + ".csproj"@;
        let i = stem.len() as int;
        assert(last_dot_at(a, i));
        let w = choose|x: int| last_dot_at(a, x);
        assert(w == i) by {
            if w > i {
                assert(a[w] != '.');
            }
            if w < i {
                assert(a[i] == '.');
            }
        }
        assert(a.skip(i + 1) =~= "csproj"@);
        let b = stem + ".sln"@;
        assert(last_dot_at(b, i));
        let w2 = choose|x: int| last_dot_at(b, x);
        assert(w2 == i) by {
            if w2 > i {
                assert(b[w2] != '.');
            }
            if w2 < i {
                assert(b[i] == '.');
            }
        }
        assert(b.skip(i + 1) =~= "sln"@);
    }
    if !stem.contains('.') {
        assert forall|x: int| !last_dot_at(stem, x) by {
            if last_dot_at(stem, x) {
                assert(stem.contains('.'));
            }
        }
        let d = seq!['.'] + stem;
        assert(last_dot_at(d, 0)) by {
            assert forall|j: int| 0 < j < d.len() implies d[j] != '.' by {
                assert(d[j] == stem[j - 1]);
            }
        }
        let w = choose|x: int| last_dot_at(d, x);
        assert(w == 0) by {
            if w > 0 {
                assert(d[w] == stem[w - 1]);
                assert(stem.contains('.'));
            }
        }
    }
}

fn extension_of(cs: &[char]) -> (r: Option<usize>)
    ensures
        match r {
            Some(i) => 0 < i < cs@.len() && last_dot_at(cs@, i as int) && file_extension(cs@)
                == Some(cs@.skip(i + 1)),
            None => file_extension(cs@) is None,
        },
{
    let mut k: usize = cs.len();
    while k > 0
        invariant
            k <= cs.len(),
            forall|j: int| k <= j < cs.len() ==> cs@[j] != '.',
        decreases k,
    {
        if cs[k - 1] == '.' {
            let i: usize = k - 1;
            assert(last_dot_at(cs@, i as int));
            proof {
                let w: int = choose|x: int| last_dot_at(cs@, x);
                if w < i {
                    assert(cs@[i as int] == '.');
                } else if w > i {
                    assert(cs@[w] == '.');
                }
            }
            if i == 0 {
                return None;
            }
            return Some(i);
        }
        k = k - 1;
    }
    assert(!exists|x: int| last_dot_at(cs@, x));
    None
}

fn dotnet_file(name: &str) -> (r: bool)
    ensures
        r == is_dotnet_file(name@),
{
    let cs = str_chars(name);
    match extension_of(cs.as_slice()) {
        None => false,
        Some(i) => {
            assert(i < cs.len());
            let ext = crate::text::string_from_range(cs.as_slice(), i + 1, cs.len());
            assert(ext@ == name@.skip(i + 1));
            let e = str_chars(ext.as_str());
            let csproj = str_chars("csproj");
            let sln = str_chars("sln");
            chars_equal(e.as_slice(), csproj.as_slice()) || chars_equal(e.as_slice(), sln.as_slice())
        },
    }
}

/// Whether the project is a .NET one: whether any of the files at its root,
/// named by `file_names`, is a C# project or solution.
pub fn is_dotnet(file_names: &Vec<String>) -> (r: bool)
    ensures
        r == exists|i: int| 0 <= i < file_names@.len() && is_dotnet_file(#[trigger] file_names@[i]@),
{
    let mut k: usize = 0;
    while k < file_names.len()
        invariant
            k <= file_names.len(),
            forall|j: int| 0 <= j < k ==> !is_dotnet_file(#[trigger] file_names@[j]@),
        decreases file_names.len() - k,
    {
        if dotnet_file(file_names[k].as_str()) {
            return true;
        }
        k = k + 1;
    }
    false
}

} // verus!
