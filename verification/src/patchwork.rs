//! The Patchwork updater's decisions.

use vstd::prelude::*;

use crate::text::{contains_seq, first_containing, first_containing_at, str_equal};

verus! {

/// Why a Patchwork release cannot be installed.
#[derive(Debug, PartialEq, Eq, Structural)]
pub enum PatchworkError {
    GodotAssetNotFound,
    PluginAssetNotFound,
}

/// What the Patchwork updater does with a release.
#[derive(Debug, PartialEq, Eq, Structural)]
pub enum PatchworkPlan {
    /// The latest version is installed.
    UpToDate,
    /// Download the assets at these indices: the Godot editor and the plugin.
    Download { godot: usize, plugin: usize },
}

/// The text the Godot editor asset's name contains.
pub open spec fn godot_asset_pattern() -> Seq<char> {
    "godot-with-patchwork-windows"@
}

/// The text the plugin asset's name contains.
pub open spec fn plugin_asset_pattern() -> Seq<char> {
    "patchwork-godot-plugin"@
}

/// Decides the Patchwork update: nothing to do where the installed version
/// (empty where none) is the latest; else the first asset named like the
/// Godot editor and the first named like the plugin, each of which must
/// exist.
pub fn update_patchwork(current_version: &str, latest_version: &str, asset_names: &Vec<String>) -> (r:
    Result<PatchworkPlan, PatchworkError>)
    ensures
        current_version@ == latest_version@ ==> r == Ok::<PatchworkPlan, PatchworkError>(
            PatchworkPlan::UpToDate,
        ),
        current_version@ != latest_version@ ==> match r {
            Ok(PatchworkPlan::Download { godot, plugin }) => first_containing_at(
                asset_names@,
                godot_asset_pattern(),
                godot as int,
            ) && first_containing_at(asset_names@, plugin_asset_pattern(), plugin as int),
            Ok(PatchworkPlan::UpToDate) => false,
            Err(PatchworkError::GodotAssetNotFound) => forall|j: int|
                0 <= j < asset_names@.len() ==> !contains_seq(asset_names@[j]@, godot_asset_pattern()),
            Err(PatchworkError::PluginAssetNotFound) => (exists|j: int|
                0 <= j < asset_names@.len() && contains_seq(asset_names@[j]@, godot_asset_pattern()))
                && forall|j: int|
                0 <= j < asset_names@.len() ==> !contains_seq(asset_names@[j]@, plugin_asset_pattern()),
        },
{
    if str_equal(current_version, latest_version) {
        return Ok(PatchworkPlan::UpToDate);
    }
    let godot = match first_containing(asset_names, "godot-with-patchwork-windows") {
        None => {
            return Err(PatchworkError::GodotAssetNotFound);
        },
        Some(i) => i,
    };
    let plugin = match first_containing(asset_names, "patchwork-godot-plugin") {
        None => {
            return Err(PatchworkError::PluginAssetNotFound);
        },
        Some(i) => i,
    };
    Ok(PatchworkPlan::Download { godot, plugin })
}

} // verus!
