//! Well-known local locations used by the workflow: where downloaded images
//! are kept, where the reconstruction program leaves its textured output, and
//! where the packaged archive is written.

use vstd::prelude::*;

verus! {

/// Root of the reconstruction working area.
pub fn parent_folder() -> (r: String)
    ensures
        r@ == "/ph"@,
{
    String::from_str("/ph")
}

/// Directory the downloaded capture images are stored in.
pub fn image_folder() -> (r: String)
    ensures
        r@ == "/ph/images"@,
{
    String::from_str("/ph/images")
}

/// Directory the reconstruction program leaves its textured model in.
pub fn texture_folder() -> (r: String)
    ensures
        r@ == "/ph/odm_texturing"@,
{
    String::from_str("/ph/odm_texturing")
}

/// Path of the packaged model archive.
pub fn archive_file() -> (r: String)
    ensures
        r@ == "/model.zip"@,
{
    String::from_str("/model.zip")
}

} // verus!
