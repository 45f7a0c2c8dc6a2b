use vstd::prelude::*;

use crate::error::AppError;

verus! {

/// Whether an object is the untouched source or a produced output.
#[derive(Debug, Clone, Copy)]
pub enum ImageType {
    Original,
    Processed,
}

/// What a storage backend reports of a completed upload.
pub struct PutObjectOutput {
    pub etag: String,
    pub url: String,
    pub size: u64,
}

/// The storage capability the orchestrator consumes. Backends (a
/// filesystem root, an object store) live outside this crate and
/// implement it there; nothing here leans on how they behave.
pub trait Storage {
    fn download_object(&self, key: &str) -> Result<Vec<u8>, AppError>;

    fn upload_object(&self, data: Vec<u8>, key: &str, mime: &str, image_type: ImageType) -> Result<
        PutObjectOutput,
        AppError,
    >;
}

} // verus!
