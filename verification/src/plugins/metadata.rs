//! A plugin's entry in the execution plan, and where its binary comes from.
use vstd::prelude::*;
use crate::text::{concat3, str_eq};
use crate::plugins::paths::{join_path, plugin_filename, resolve_plugin_binary_path, resolve_plugin_filename, TargetOs};

verus! {

/// A plugin as the execution plan describes it.
pub struct PluginMetadata {
    /// Binary name, from which the platform's library file name is derived.
    pub name: String,
    /// Identifier used for routing (`/{route}/web`, `/api/{route}/...`).
    pub plugin_route: String,
    /// Semantic version.
    pub version: String,
    /// `"local"` (or `"unc"`) to copy from a folder, `"s3"` to download.
    pub plugin_location_type: String,
    /// Folder (or URL prefix) holding the binary.
    pub plugin_base_path: String,
    pub team_name: String,
    pub engineering_contact_email: String,
    pub operation_contact_email: String,
    /// Run through `run_async` (default `false`).
    pub run_async: bool,
    /// Show in the UI (default `true`).
    pub visible_in_ui: bool,
    pub plugin_description: String,
    /// Event after which the plugin is shown.
    pub run_after_event_name: Option<String>,
    /// Event the plugin publishes when done.
    pub completed_event_name: Option<String>,
}

/// Default of `visible_in_ui` when the plan leaves it out.
pub fn default_visible_in_ui() -> (r: bool)
    ensures
        r == true,
{
    true
}

impl PluginMetadata {
    /// Where the plugin's binary is found: its library file name inside `plugin_base_path`.
    pub fn resolved_local_path(&self, os: TargetOs) -> (r: String)
        ensures
            r@ == join_path(self.plugin_base_path@, plugin_filename(self.name@, os), os),
    {
        resolve_plugin_binary_path(self.plugin_base_path.as_str(), self.name.as_str(), os)
    }
}

/// How a plugin's binary is to be made available next to the executable.
pub enum BinaryAction {
    /// Use the library file of this name already in the executable's folder.
    UseExeDir(String),
    /// Copy this file into the executable's folder.
    CopyToExeDir(String),
    /// Download from this URL into the executable's folder.
    Download(String),
}

/// The location types that copy from a folder.
pub open spec fn copies_from_folder(kind: Seq<char>) -> bool {
    kind == "local"@ || kind == "unc"@
}

/// Decides how to make plugin `plugin`'s binary available: without write
/// permission the binary must already be next to the executable; otherwise it is
/// copied or downloaded according to its location type.
pub fn prepare_plugin_binary(plugin: &PluginMetadata, allow_write: bool, os: TargetOs) -> (r: Result<
    BinaryAction,
    String,
>)
    ensures
        !allow_write ==> (r matches Ok(BinaryAction::UseExeDir(f)) && f@ == plugin_filename(plugin.name@, os)),
        allow_write && copies_from_folder(plugin.plugin_location_type@) ==> (r matches Ok(
            BinaryAction::CopyToExeDir(p),
        ) && p@ == join_path(plugin.plugin_base_path@, plugin_filename(plugin.name@, os), os)),
        allow_write && plugin.plugin_location_type@ == "s3"@ ==> (r matches Ok(BinaryAction::Download(u)) && u@
            == join_path(plugin.plugin_base_path@, plugin_filename(plugin.name@, os), os)),
        allow_write && !copies_from_folder(plugin.plugin_location_type@) && plugin.plugin_location_type@
            != "s3"@ ==> (r matches Err(m) && m@ == "Unsupported plugin location type '"@
            + plugin.plugin_location_type@ + "'"@),
{
    if !allow_write {
        return Ok(BinaryAction::UseExeDir(resolve_plugin_filename(plugin.name.as_str(), os)));
    }
    let kind = plugin.plugin_location_type.as_str();
    proof {
        reveal_strlit("local");
        reveal_strlit("unc");
        reveal_strlit("s3");
        assert("s3"@.len() == 2 && "unc"@.len() == 3 && "local"@.len() == 5);
        assert("s3"@ != "local"@ && "s3"@ != "unc"@);
    }
    if str_eq(kind, "local") || str_eq(kind, "unc") {
        Ok(BinaryAction::CopyToExeDir(plugin.resolved_local_path(os)))
    } else if str_eq(kind, "s3") {
        Ok(BinaryAction::Download(plugin.resolved_local_path(os)))
    } else {
        Err(concat3("Unsupported plugin location type '", kind, "'"))
    }
}

} // verus!
