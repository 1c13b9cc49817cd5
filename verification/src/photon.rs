//! The image type of the `photon_rs` crate, as far as this library reads it.
//!
//! Nothing here is proved. An image is opaque to the verifier; what its
//! two getters return is given a name, and the rest of the library is
//! proved for whatever bytes and width those names stand for.

use photon_rs::PhotonImage;
use vstd::prelude::*;

verus! {

/// `photon_rs::PhotonImage`: a decoded image, held as a buffer of bytes
/// with a width and a height. Its fields are private to its crate.
#[verifier::external_type_specification]
#[verifier::external_body]
pub struct ExPhotonImage(photon_rs::PhotonImage);

/// The bytes that an image holds. The decoders of `photon_rs` fill them
/// with four bytes per pixel (red, green, blue, alpha), row after row;
/// no contract here rests on that.
pub uninterp spec fn image_bytes(image: PhotonImage) -> Seq<u8>;

/// The width in pixels that an image was made with.
pub uninterp spec fn image_width(image: PhotonImage) -> u32;

/// `PhotonImage::get_raw_pixels` returns a copy of the buffer that the
/// image holds. It reads the image only, so the same image gives the same
/// bytes.
pub assume_specification[ PhotonImage::get_raw_pixels ](image: &PhotonImage) -> (bytes: Vec<u8>)
    ensures
        bytes@ == image_bytes(*image),
;

/// `PhotonImage::get_width` returns the width that the image holds. It
/// reads the image only, so the same image gives the same width.
pub assume_specification[ PhotonImage::get_width ](image: &PhotonImage) -> (width: u32)
    ensures
        width == image_width(*image),
;

} // verus!
