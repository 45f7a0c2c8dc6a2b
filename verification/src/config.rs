use vstd::prelude::*;

verus! {

/// Which storage backend a deployment runs against.
pub enum StorageType {
    Local,
    S3,
}

/// A deployment's whole configuration.
pub struct Config {
    pub app: AppConfig,
    pub storage: StorageConfig,
}

/// Listener addresses and process-wide knobs; the pixel concurrency
/// value bounds the compute pool's width.
pub struct AppConfig {
    pub listen: String,
    pub metrics_listen: String,
    pub vips_concurrency: i32,
    pub api_key: String,
    pub max_body_size_mb: usize,
    pub enable_openapi: Option<bool>,
}

/// The storage backend choice with the settings of whichever is used.
pub struct StorageConfig {
    pub storage_type: StorageType,
    pub s3: Option<StorageConfigS3>,
    pub local: Option<StorageConfigLocal>,
}

/// Settings of the object-store backend.
pub struct StorageConfigS3 {
    pub endpoint: String,
    pub bucket: String,
    pub access_key_id: String,
    pub secret_access_key: String,
    pub region: String,
    pub force_path_style: bool,
    pub base_url: String,
    pub original_base_url: Option<String>,
}

/// Settings of the filesystem backend.
pub struct StorageConfigLocal {
    pub path: String,
}

} // verus!
