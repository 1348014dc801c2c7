//! Response shapes of the verb-tagged upload/delete protocol.

use vstd::prelude::*;
use crate::pipeline::BlobDescriptor;
use crate::pipeline::UploadError;

verus! {

/// The error payload sent to clients.
pub struct BlossomError {
    pub message: String,
}

impl BlossomError {
    pub fn new(msg: String) -> (r: Self)
        ensures
            r.message == msg,
    {
        Self { message: msg }
    }
}

/// Every answer of this protocol: an error payload, one descriptor, a
/// descriptor list, or a bare status code.
pub enum BlossomResponse {
    GenericError(BlossomError),
    BlobDescriptor(BlobDescriptor),
    BlobDescriptorList(Vec<BlobDescriptor>),
    StatusOnly(u16),
}

impl BlossomResponse {
    pub fn error(msg: String) -> (r: Self)
        ensures
            r matches BlossomResponse::GenericError(e) && e.message == msg,
    {
        Self::GenericError(BlossomError::new(msg))
    }
}

impl UploadError {
    /// The client-visible message for each refusal.
    pub fn message(&self) -> (r: String)
        ensures
            *self == UploadError::InvalidMethodTag ==> r@ == "Invalid request method tag"@,
            *self == UploadError::TooLarge ==> r@ == "File too large"@,
            *self == UploadError::NotWhitelisted ==> r@ == "Not on whitelist"@,
            *self == UploadError::StorageFailed ==> r@ == "Error saving file (disk)"@,
            *self == UploadError::HookRejected ==> r@ == "Upload rejected"@,
            *self == UploadError::HookFailed ==> r@
                == "Internal error, failed to call webhook"@,
            *self == UploadError::AlreadyExists ==> r@ == "File already exists"@,
            *self == UploadError::DbFailed ==> r@ == "Error saving file (db)"@,
    {
        match self {
            UploadError::InvalidMethodTag => String::from_str("Invalid request method tag"),
            UploadError::TooLarge => String::from_str("File too large"),
            UploadError::NotWhitelisted => String::from_str("Not on whitelist"),
            UploadError::StorageFailed => String::from_str("Error saving file (disk)"),
            UploadError::HookRejected => String::from_str("Upload rejected"),
            UploadError::HookFailed => String::from_str(
                "Internal error, failed to call webhook",
            ),
            UploadError::AlreadyExists => String::from_str("File already exists"),
            UploadError::DbFailed => String::from_str("Error saving file (db)"),
        }
    }
}

} // verus!
