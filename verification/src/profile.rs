//! Profile metadata values and image validation: the pure parts of the
//! profile-picture workflow.  Loading and uploading the image are external
//! I/O; what an image may weigh and whether its bytes decode at all are
//! decided here.

use vstd::prelude::*;

use crate::error::WorldError;

verus! {

/// Where an image comes from: a local file path or a URL.
#[derive(Debug, Clone, PartialEq, Eq)]
pub enum ImageSource {
    LocalFile(String),
    Url(String),
}

impl ImageSource {
    /// An image read from a local file.
    pub fn from_path(path: &str) -> (r: Self)
        ensures
            r matches ImageSource::LocalFile(p) && p@ == path@,
    {
        ImageSource::LocalFile(path.to_owned())
    }

    /// An image downloaded from a URL.
    pub fn from_url(url: &str) -> (r: Self)
        ensures
            r matches ImageSource::Url(u) && u@ == url@,
    {
        ImageSource::Url(url.to_owned())
    }
}

/// The off-ledger metadata record of a profile picture.
#[derive(Debug, Clone, PartialEq, Eq)]
pub struct Metadata {
    pub name: String,
    pub description: String,
    pub image: String,
    pub properties: MetadataProperties,
}

/// The typed properties block of a profile-picture record.
#[derive(Debug, Clone, PartialEq, Eq)]
pub struct MetadataProperties {
    pub asset_type: String,
}

impl Metadata {
    /// A profile-picture record from its name, optional description and image
    /// URI; the description defaults to "Profile picture NFT".
    pub fn new(name: &str, description: Option<&str>, image_uri: &str) -> (r: Self)
        ensures
            r.name@ == name@,
            (match description {
                Some(d) => r.description@ == d@,
                None => r.description@ == "Profile picture NFT"@,
            }),
            r.image@ == image_uri@,
            r.properties.asset_type@ == "profile_picture"@,
    {
        let description = match description {
            Some(d) => d.to_owned(),
            None => "Profile picture NFT".to_owned(),
        };
        Metadata {
            name: name.to_owned(),
            description,
            image: image_uri.to_owned(),
            properties: MetadataProperties { asset_type: "profile_picture".to_owned() },
        }
    }
}

/// Largest image accepted for upload, in bytes.
pub const MAX_IMAGE_SIZE: usize = 10 * 1024 * 1024;

/// Whether a byte string decodes as an image in one of the supported
/// formats — a pure function of the bytes, named but not defined here.
pub uninterp spec fn decodes_as_image(data: Seq<u8>) -> bool;

/// Relies on image::load_from_memory: whether the bytes decode as a
/// supported image format, a pure function of the bytes alone.
#[verifier::external_body]
fn try_decode_image(data: &[u8]) -> (r: bool)
    ensures
        r == decodes_as_image(data@),
{
    image::load_from_memory(data).is_ok()
}

/// Validates image bytes for upload: they must weigh at most
/// `MAX_IMAGE_SIZE` and decode as a supported format (PNG, JPG, GIF, WebP).
/// Fails with `ImageTooLarge` exactly on overweight data, and with
/// `InvalidImageFormat` exactly on admissible data that does not decode.
pub fn validate_image(image_data: &[u8]) -> (r: Result<(), WorldError>)
    ensures
        image_data@.len() > MAX_IMAGE_SIZE ==> r == Err::<(), WorldError>(
            WorldError::ImageTooLarge(image_data@.len() as usize, MAX_IMAGE_SIZE),
        ),
        image_data@.len() <= MAX_IMAGE_SIZE && decodes_as_image(image_data@) ==> r is Ok,
        image_data@.len() <= MAX_IMAGE_SIZE && !decodes_as_image(image_data@) ==> (r matches Err(e)
            && e is InvalidImageFormat),
{
    if image_data.len() > MAX_IMAGE_SIZE {
        return Err(WorldError::ImageTooLarge(image_data.len(), MAX_IMAGE_SIZE));
    }
    if !try_decode_image(image_data) {
        return Err(
            WorldError::InvalidImageFormat(
                "the bytes decode as none of PNG, JPG, GIF, WebP".to_owned(),
            ),
        );
    }
    Ok(())
}

} // verus!
