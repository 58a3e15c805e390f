//! Request type of image uploads.
use vstd::prelude::*;

verus! {

pub struct UploadImageRequest {
    /// The image, base64-encoded.
    pub image_data: String,
    /// Its media type, such as `image/jpeg`.
    pub file_type: String,
    pub expires_in_seconds: Option<i64>,
}

} // verus!
