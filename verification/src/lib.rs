//! Verified core of a mod-hosting "create package" pipeline: base62
//! identifiers, two-phase multipart ingestion, the upload session state
//! machine with compensation, and final record assembly.
pub mod hosting;
pub mod ids;
pub mod ingest;
pub mod models;
pub mod request;
pub mod session;

pub use hosting::AuthorizationData;
pub use hosting::DeleteFileData;
pub use hosting::FileHostingError;
pub use hosting::UploadFileData;
pub use hosting::UploadUrlData;
pub use ids::MalformedIdError;
pub use ids::ModId;
pub use ids::TeamId;
pub use ids::VersionId;
pub use ids::decode_base62;
pub use ids::encode_base62;
pub use ingest::JobKind;
pub use ingest::PartRole;
pub use ingest::RawPart;
pub use ingest::UploadJob;
pub use ingest::UploadPlan;
pub use ingest::classify_part;
pub use ingest::find_version_for_file;
pub use ingest::plan_uploads;
pub use models::FileHash;
pub use models::GameVersion;
pub use models::Mod;
pub use models::SearchRequest;
pub use models::Team;
pub use models::TeamMember;
pub use models::Version;
pub use models::VersionFile;
pub use models::VersionType;
pub use request::InitialVersionData;
pub use request::ModCreateData;
pub use session::IngestSession;
pub use session::start_session;
