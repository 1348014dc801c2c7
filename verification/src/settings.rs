//! Process configuration as plain values.

use vstd::prelude::*;

verus! {

/// Service configuration.  Loading it from a config file is the
/// application's job; the library only reads these fields.
pub struct Settings {
    /// Listen addr:port
    pub listen: Option<String>,
    /// Directory to store files
    pub storage_dir: String,
    /// Database connection string
    pub database: String,
    /// Maximum supported filesize for uploading
    pub max_upload_bytes: usize,
    /// Public facing url
    pub public_url: String,
    /// Whitelisted pubkeys, hex encoded
    pub whitelist: Option<Vec<String>>,
    /// Path for the image model used by the transform capability
    pub vit_model_path: Option<String>,
    /// Webhook api endpoint
    pub webhook_url: Option<String>,
}

} // verus!
