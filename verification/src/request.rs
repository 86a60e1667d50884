//! The parsed metadata part of a "create package" request.
use crate::ids::ModId;
use crate::models::GameVersion;
use crate::models::TeamMember;
use crate::models::VersionType;
use vstd::prelude::*;

verus! {

/// One version declared by the create request, together with the file
/// names expected to arrive for it among the binary parts.
#[derive(Debug)]
pub struct InitialVersionData {
    /// The file names declared for this version.
    pub file_names: Vec<String>,
    /// A short identifying slug for the version.
    pub version_slug: String,
    /// The display title of the version.
    pub version_title: String,
    /// A description of the version.
    pub version_description: String,
    /// A list of mods that this version depends on.
    pub dependencies: Vec<ModId>,
    /// The game versions this version supports.
    pub game_versions: Vec<GameVersion>,
    /// The type of the release - `Alpha`, `Beta`, or `Release`.
    pub version_type: VersionType,
}

/// The structured metadata of a create request.
#[derive(Debug)]
pub struct ModCreateData {
    /// The title or name of the mod.
    pub mod_name: String,
    /// A short description of the mod.
    pub mod_description: String,
    /// A long description of the mod, in markdown.
    pub mod_body: String,
    /// A list of initial versions to upload with the created mod
    pub initial_versions: Vec<InitialVersionData>,
    /// The team of people that has ownership of this mod.
    pub team_members: Vec<TeamMember>,
    /// A list of the categories that the mod is in.
    pub categories: Vec<String>,
    /// An optional link to where to submit bugs or issues with the mod.
    pub issues_url: Option<String>,
    /// An optional link to the source code for the mod.
    pub source_url: Option<String>,
    /// An optional link to the mod's wiki page or other relevant information.
    pub wiki_url: Option<String>,
}

} // verus!
