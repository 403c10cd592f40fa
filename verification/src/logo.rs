//! Team logos: what the layout needs to know of them.

use crate::error::TicketError;
use crate::png::{check_palettes, palettes_fit};
use vstd::prelude::*;

verus! {

/// The error of the `image` crate. It is told apart from success and never
/// looked into.
#[verifier::external_type_specification]
#[verifier::external_body]
pub struct ExImageError(image::ImageError);

/// Width and height of a picture, in pixels.
#[derive(Clone, Copy, Debug, PartialEq, Eq, Structural)]
pub struct LogoSize {
    pub width: u32,
    pub height: u32,
}

/// Width and height of the picture that the image decoder reads from `bytes`
/// taken as a PNG file; `None` where it reads no picture from them.
pub uninterp spec fn png_size(bytes: Seq<u8>) -> Option<(u32, u32)>;

/// The size of the logo held in `bytes`, if they hold one. Bytes with a
/// palette whose length does not fit hold none: the decoder is never given
/// them.
pub open spec fn logo_size(bytes: Seq<u8>) -> Option<LogoSize> {
    if palettes_fit(bytes) {
        match png_size(bytes) {
            Some((width, height)) => Some(LogoSize { width, height }),
            None => None,
        }
    } else {
        None
    }
}

/// Calls `image::load_from_memory_with_format` for the PNG format, which
/// decodes the whole picture, and reads `width` and `height` of what it
/// returns. The contract claims only that the outcome is the one named
/// [`png_size`]: the same bytes always give the same size or a refusal.
///
/// The decoder keeps the data of a palette chunk whatever its length (the
/// `png` crate's `parse_plte`) and, for a picture with a palette, builds a
/// table of 256 colours from it without looking at that length (its
/// `create_rgba_palette`): it panics where the length is no multiple of
/// three or more than 768. Such bytes are left out. The decoder finds its
/// chunks by their lengths as [`palettes_fit`] does, and stops no later.
#[verifier::external_body]
fn decode_png_size(bytes: &[u8]) -> (size: Result<(u32, u32), image::ImageError>)
    requires
        palettes_fit(bytes@),
    ensures
        match size {
            Ok(found) => png_size(bytes@) == Some(found),
            Err(_) => png_size(bytes@) is None,
        },
{
    let picture = image::load_from_memory_with_format(bytes, image::ImageFormat::Png)?;
    Ok((picture.width(), picture.height()))
}

/// Decodes a logo and measures it.
///
/// Fails with [`TicketError::Decode`] exactly where the bytes hold no
/// picture: where a palette in them has a length that does not fit, or the
/// decoder reads no picture from them.
pub fn measure_logo(bytes: &[u8]) -> (size: Result<LogoSize, TicketError>)
    ensures
        match size {
            Ok(found) => logo_size(bytes@) == Some(found),
            Err(error) => error == TicketError::Decode && logo_size(bytes@) is None,
        },
{
    if !check_palettes(bytes) {
        return Err(TicketError::Decode);
    }
    match decode_png_size(bytes) {
        Ok((width, height)) => Ok(LogoSize { width, height }),
        Err(_) => Err(TicketError::Decode),
    }
}

} // verus!
