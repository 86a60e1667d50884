//! The persisted record shapes: packages ("mods"), their versions, the
//! files of a version, and the owning team.
use crate::ids::ModId;
use crate::ids::TeamId;
use crate::ids::VersionId;
use vstd::prelude::*;

verus! {

/// One member of the team that owns a mod.
#[derive(Debug)]
pub struct TeamMember {
    /// An identifier for the member's user account.
    pub user_id: String,
    /// The member's role within the team.
    pub role: String,
}

/// The team of people that has ownership of a mod.
#[derive(Debug)]
pub struct Team {
    /// The ID of the team.
    pub id: TeamId,
    /// The members of the team.
    pub members: Vec<TeamMember>,
}

/// A hash of a mod's file
#[derive(Debug)]
pub struct FileHash {
    /// The hashing algorithm used for this hash; could be "md5", "sha1", etc
    pub algorithm: String,
    /// The file hash, using the specified algorithm
    pub hash: String,
}

/// A single mod file, with a url for the file and the file's hash
#[derive(Debug)]
pub struct VersionFile {
    /// A list of hashes of the file
    pub hashes: Vec<FileHash>,
    /// A direct link to the file for downloading it.
    pub url: String,
}

/// A version file is well formed when it carries at least one content hash.
pub open spec fn version_file_wf(f: VersionFile) -> bool {
    f.hashes@.len() >= 1
}

/// The type of a release - `Alpha`, `Beta`, or `Release`.
#[derive(Copy, Clone, PartialEq, Eq, Structural, Debug)]
pub enum VersionType {
    Release,
    Beta,
    Alpha,
}

/// A specific version of Minecraft
#[derive(Debug)]
pub struct GameVersion(pub String);

/// A specific version of a mod
#[derive(Debug)]
pub struct Version {
    /// The ID of the version, encoded as a base62 string.
    pub id: VersionId,
    /// The ID of the mod this version is for.
    pub mod_id: ModId,
    /// The name of this version
    pub name: String,
    /// A link to the changelog for this version of the mod.
    pub changelog_url: Option<String>,
    /// The timestamp at which this version was published, in milliseconds.
    pub date_published: u64,
    /// The number of downloads this specific version has had.
    pub downloads: u32,
    /// The type of the release - `Alpha`, `Beta`, or `Release`.
    pub version_type: VersionType,
    /// A list of files available for download for this version.
    pub files: Vec<VersionFile>,
    /// A list of mods that this version depends on.
    pub dependencies: Vec<ModId>,
    /// A list of versions of Minecraft that this version of the mod supports.
    pub game_versions: Vec<GameVersion>,
}

/// A mod returned from the API
#[derive(Debug)]
pub struct Mod {
    /// The ID of the mod, encoded as a base62 string.
    pub id: ModId,
    /// The team of people that has ownership of this mod.
    pub team: Team,
    /// The title or name of the mod.
    pub title: String,
    /// A short description of the mod.
    pub description: String,
    /// The rendered long description of the mod.
    pub body_url: String,
    /// The URL of the mod's icon, or empty when no icon was uploaded.
    pub icon_url: String,
    /// The timestamp at which the mod was first published, in milliseconds.
    pub published: u64,
    /// The total number of downloads the mod has had.
    pub downloads: u32,
    /// A list of the categories that the mod is in.
    pub categories: Vec<String>,
    /// A list of ids for versions of the mod.
    pub versions: Vec<VersionId>,
    /// An optional link to where to submit bugs or issues with the mod.
    pub issues_url: Option<String>,
    /// An optional link to the source code for the mod.
    pub source_url: Option<String>,
    /// An optional link to the mod's wiki page or other relevant information.
    pub wiki_url: Option<String>,
}

/// Parameters of a mod search query.
#[derive(Debug)]
pub struct SearchRequest {
    pub query: Option<String>,
    pub filters: Option<String>,
    pub version: Option<String>,
    pub offset: Option<String>,
    pub index: Option<String>,
}

} // verus!
