//! The icon in the tray.
use vstd::prelude::*;

use crate::palette::{check_palettes, palettes_fit};

verus! {

/// An image of four bytes per pixel: red, green, blue, opacity.
#[derive(Debug)]
pub struct IconImage {
    pub rgba: Vec<u8>,
    pub width: u32,
    pub height: u32,
}

/// The contents of an [`IconImage`].
pub struct Pixels {
    pub rgba: Seq<u8>,
    pub width: u32,
    pub height: u32,
}

impl View for IconImage {
    type V = Pixels;

    open spec fn view(&self) -> Pixels {
        Pixels { rgba: self.rgba@, width: self.width, height: self.height }
    }
}

/// `image::ImageError`, carried through without a look inside.
#[verifier::external_type_specification]
#[verifier::external_body]
pub struct ExImageError(image::ImageError);

/// The pixels, the width and the height that `image::load_from_memory` reads
/// out of a file, where it can, once `into_rgba8` has made them RGBA.
pub uninterp spec fn decoded(file: Seq<u8>) -> Option<(Seq<u8>, u32, u32)>;

/// `image::load_from_memory`, and `into_rgba8` on what it gives. The image
/// formats are not spelled out: whether the file can be read, and what it
/// shows, is said to be a function of its bytes. Left out are images with
/// a palette that does not fit: the PNG decoder takes a palette of any length,
/// and panics where it cuts it into entries for the first row of pixels.
#[verifier::external_body]
fn load_rgba(file: &[u8]) -> (r: Result<(Vec<u8>, u32, u32), image::ImageError>)
    requires
        palettes_fit(file@),
    ensures
        r is Ok <==> decoded(file@) is Some,
        r matches Ok(image) ==> decoded(file@) == Some((image.0@, image.1, image.2)),
{
    let image = image::load_from_memory(file)?.into_rgba8();
    let (width, height) = image.dimensions();
    Ok((image.into_raw(), width, height))
}

/// The icon in the bytes of its file; nothing where they are no image, or one
/// with a palette that does not fit.
pub fn get_cat_icon(file: &[u8]) -> (r: Option<IconImage>)
    ensures
        palettes_fit(file@) ==> match decoded(file@) {
            Some((rgba, width, height)) => r matches Some(icon) && icon@ == (Pixels {
                rgba,
                width,
                height,
            }),
            None => r is None,
        },
        !palettes_fit(file@) ==> r is None,
{
    if !check_palettes(file) {
        return None;
    }
    match load_rgba(file) {
        Ok((rgba, width, height)) => Some(IconImage { rgba, width, height }),
        Err(_) => None,
    }
}

} // verus!
