//! The layout of the ticket image: a white canvas with the two logos, the
//! score and the date.

use crate::logo::LogoSize;
use vstd::prelude::*;
use vstd::string::StrSliceExecFns;

verus! {

/// Width of the canvas, in pixels.
pub const IMAGE_WIDTH: u32 = 2048;

/// Height of the canvas, in pixels.
pub const IMAGE_HEIGHT: u32 = 1024;

/// The widest a logo is drawn.
pub const LOGO_MAX_WIDTH: u32 = 384;

/// The tallest a logo is drawn.
pub const LOGO_MAX_HEIGHT: u32 = 512;

/// Distance of a logo from its edge of the canvas: a twelfth of the width.
pub const LOGO_MARGIN: u32 = IMAGE_WIDTH / 12;

/// Size of the font of the score.
pub const SCORE_FONT_SIZE: u32 = 256;

/// The width that one character of the score is taken to have.
pub const SCORE_GLYPH_WIDTH: u32 = SCORE_FONT_SIZE / 7;

/// Size of the font of the date.
pub const DATE_FONT_SIZE: u32 = 64;

/// How far left of the middle of the canvas the date begins.
pub const DATE_SHIFT: u32 = 200;

/// The colours of the image.
#[derive(Clone, Copy, Debug, PartialEq, Eq, Structural)]
pub enum Ink {
    White,
    Blue,
    Black,
}

/// The fonts of the image: the bold display font of the score, and the
/// standard font.
#[derive(Clone, Copy, Debug, PartialEq, Eq, Structural)]
pub enum Typeface {
    Display,
    Standard,
}

/// How a picture is resampled when its size changes.
#[derive(Clone, Copy, Debug, PartialEq, Eq, Structural)]
pub enum Resampling {
    Nearest,
    Triangle,
    CatmullRom,
    Gaussian,
    Lanczos3,
}

/// Where a logo is drawn, and how large. `x` and `y` are the top left corner.
#[derive(Clone, Copy, Debug, PartialEq, Eq, Structural)]
pub struct Placement {
    pub x: u32,
    pub y: u32,
    pub width: u32,
    pub height: u32,
    pub resampling: Resampling,
}

/// A line of text on the image. `x` and `y` are the top left corner.
#[derive(Debug)]
pub struct Caption {
    pub content: String,
    pub typeface: Typeface,
    pub size: u32,
    pub ink: Ink,
    pub x: u32,
    pub y: u32,
}

/// What a [`Caption`] holds.
pub struct CaptionView {
    pub content: Seq<char>,
    pub typeface: Typeface,
    pub size: u32,
    pub ink: Ink,
    pub x: u32,
    pub y: u32,
}

impl View for Caption {
    type V = CaptionView;

    open spec fn view(&self) -> CaptionView {
        CaptionView {
            content: self.content@,
            typeface: self.typeface,
            size: self.size,
            ink: self.ink,
            x: self.x,
            y: self.y,
        }
    }
}

/// The whole image, as what is drawn on the canvas and the name of the file
/// it is written to. The layers are drawn in the order of the fields: the
/// home logo, the score, the date, the guest logo.
#[derive(Debug)]
pub struct Composition {
    pub width: u32,
    pub height: u32,
    pub background: Ink,
    pub home_logo: Placement,
    pub score: Caption,
    pub date: Caption,
    pub guest_logo: Placement,
    pub file_name: String,
}

/// What a [`Composition`] holds.
pub struct CompositionView {
    pub width: u32,
    pub height: u32,
    pub background: Ink,
    pub home_logo: Placement,
    pub score: CaptionView,
    pub date: CaptionView,
    pub guest_logo: Placement,
    pub file_name: Seq<char>,
}

impl View for Composition {
    type V = CompositionView;

    open spec fn view(&self) -> CompositionView {
        CompositionView {
            width: self.width,
            height: self.height,
            background: self.background,
            home_logo: self.home_logo,
            score: self.score@,
            date: self.date@,
            guest_logo: self.guest_logo,
            file_name: self.file_name@,
        }
    }
}

/// The size at which a logo is drawn: each side as it is, but no longer than
/// the longest allowed. A logo is never enlarged.
pub open spec fn fitted(size: LogoSize) -> LogoSize {
    LogoSize {
        width: if size.width > LOGO_MAX_WIDTH {
            LOGO_MAX_WIDTH
        } else {
            size.width
        },
        height: if size.height > LOGO_MAX_HEIGHT {
            LOGO_MAX_HEIGHT
        } else {
            size.height
        },
    }
}

/// The home logo stands a margin away from the left edge, with as much room
/// above it as below.
pub open spec fn home_placement(size: LogoSize) -> Placement {
    Placement {
        x: LOGO_MARGIN,
        y: (IMAGE_HEIGHT / 2 - fitted(size).height / 2) as u32,
        width: fitted(size).width,
        height: fitted(size).height,
        resampling: Resampling::Lanczos3,
    }
}

/// The guest logo ends a margin away from the right edge, with as much room
/// above it as below.
pub open spec fn guest_placement(size: LogoSize) -> Placement {
    Placement {
        x: (IMAGE_WIDTH - LOGO_MARGIN - fitted(size).width) as u32,
        y: (IMAGE_HEIGHT / 2 - fitted(size).height / 2) as u32,
        width: fitted(size).width,
        height: fitted(size).height,
        resampling: Resampling::Lanczos3,
    }
}

/// Where the score begins: left of the middle of the canvas by one glyph
/// width for each character, and at the left edge where that many glyphs do
/// not fit.
pub open spec fn score_x(characters: nat) -> u32 {
    if characters * SCORE_GLYPH_WIDTH <= IMAGE_WIDTH / 2 {
        (IMAGE_WIDTH / 2 - characters * SCORE_GLYPH_WIDTH) as u32
    } else {
        0
    }
}

/// The score: large, blue, in the display font, above the middle of the
/// canvas by the size of its font.
pub open spec fn score_caption(text: Seq<char>) -> CaptionView {
    CaptionView {
        content: text,
        typeface: Typeface::Display,
        size: SCORE_FONT_SIZE,
        ink: Ink::Blue,
        x: score_x(text.len()),
        y: (IMAGE_HEIGHT / 2 - SCORE_FONT_SIZE) as u32,
    }
}

/// The date: smaller, black, in the standard font, at the middle height and
/// a fixed distance left of the middle.
pub open spec fn date_caption(text: Seq<char>) -> CaptionView {
    CaptionView {
        content: text,
        typeface: Typeface::Standard,
        size: DATE_FONT_SIZE,
        ink: Ink::Black,
        x: (IMAGE_WIDTH / 2 - DATE_SHIFT) as u32,
        y: IMAGE_HEIGHT / 2,
    }
}

/// Fits a logo into the largest size allowed.
pub fn fit_logo(size: LogoSize) -> (fit: LogoSize)
    ensures
        fit == fitted(size),
        fit.width <= LOGO_MAX_WIDTH,
        fit.height <= LOGO_MAX_HEIGHT,
{
    LogoSize {
        width: if size.width > LOGO_MAX_WIDTH {
            LOGO_MAX_WIDTH
        } else {
            size.width
        },
        height: if size.height > LOGO_MAX_HEIGHT {
            LOGO_MAX_HEIGHT
        } else {
            size.height
        },
    }
}

/// Places the logo of the home team.
pub fn place_home_logo(size: LogoSize) -> (placement: Placement)
    ensures
        placement == home_placement(size),
{
    let fit = fit_logo(size);
    Placement {
        x: LOGO_MARGIN,
        y: IMAGE_HEIGHT / 2 - fit.height / 2,
        width: fit.width,
        height: fit.height,
        resampling: Resampling::Lanczos3,
    }
}

/// Places the logo of the guest team.
pub fn place_guest_logo(size: LogoSize) -> (placement: Placement)
    ensures
        placement == guest_placement(size),
{
    let fit = fit_logo(size);
    Placement {
        x: IMAGE_WIDTH - LOGO_MARGIN - fit.width,
        y: IMAGE_HEIGHT / 2 - fit.height / 2,
        width: fit.width,
        height: fit.height,
        resampling: Resampling::Lanczos3,
    }
}

/// Lays out the score.
pub fn lay_out_score(text: String) -> (caption: Caption)
    ensures
        caption@ == score_caption(text@),
{
    let characters: usize = text.as_str().unicode_len();
    let room: usize = (IMAGE_WIDTH / 2 / SCORE_GLYPH_WIDTH) as usize;
    let x: u32 = if characters <= room {
        IMAGE_WIDTH / 2 - (characters as u32) * SCORE_GLYPH_WIDTH
    } else {
        0
    };
    Caption {
        content: text,
        typeface: Typeface::Display,
        size: SCORE_FONT_SIZE,
        ink: Ink::Blue,
        x,
        y: IMAGE_HEIGHT / 2 - SCORE_FONT_SIZE,
    }
}

/// Lays out the date.
pub fn lay_out_date(text: String) -> (caption: Caption)
    ensures
        caption@ == date_caption(text@),
{
    Caption {
        content: text,
        typeface: Typeface::Standard,
        size: DATE_FONT_SIZE,
        ink: Ink::Black,
        x: IMAGE_WIDTH / 2 - DATE_SHIFT,
        y: IMAGE_HEIGHT / 2,
    }
}

} // verus!
