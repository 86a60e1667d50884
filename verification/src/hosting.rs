//! Data carried by the hosting backend's handshake protocol
//! (authorize, get-upload-target, upload, delete). The handshake itself is
//! request/response I/O and is driven outside the library; these types and
//! the error kind are what the ingestion logic reads and produces.
use vstd::prelude::*;

verus! {

/// The short-lived session obtained by exchanging long-lived credentials.
/// Scoped to one create request; never shared across unrelated requests.
#[derive(Debug)]
pub struct AuthorizationData {
    /// The account the credentials belong to.
    pub account_id: String,
    /// The bearer token for subsequent calls.
    pub authorization_token: String,
    /// The base URL for API calls under this session.
    pub api_url: String,
    /// The base URL for downloading stored files.
    pub download_url: String,
}

/// A scoped, single-bucket upload endpoint and token.
#[derive(Debug)]
pub struct UploadUrlData {
    /// The bucket the endpoint is scoped to.
    pub bucket_id: String,
    /// The URL uploads are sent to.
    pub upload_url: String,
    /// The token authorizing uploads to this endpoint.
    pub authorization_token: String,
}

/// The result of one successful remote upload.
#[derive(Debug)]
pub struct UploadFileData {
    /// The remote identifier of the stored file.
    pub file_id: String,
    /// The remote name of the stored file.
    pub file_name: String,
    /// The content hash the backend computed, used as an integrity
    /// fingerprint and never recomputed locally.
    pub content_sha1: String,
    /// The content type the file was stored under.
    pub content_type: String,
}

/// The confirmation returned by a delete call.
#[derive(Debug)]
pub struct DeleteFileData {
    /// The remote identifier of the removed file.
    pub file_id: String,
    /// The remote name of the removed file.
    pub file_name: String,
}

/// An error from the hosting backend: a transport failure or a
/// non-success status.
#[derive(Debug)]
pub enum FileHostingError {
    /// Error while accessing the data from backblaze
    BackblazeError(String),
}

} // verus!
