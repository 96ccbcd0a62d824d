//! Building the descriptor of a tile sheet: check the grid, measure the
//! tiles, name the face, write the text.

use vstd::prelude::*;
use vstd::string::*;
use crate::decimal::{decimal, push_decimal};
use crate::descriptor::{chars_line, DescriptorView, FontDescriptor};
use crate::face::{face_name, face_of, file_stem};
use crate::glyph::{glyphs, grid_fits, scan_tiles, tile_count};
use crate::source::{ImageView, SourceImage};

verus! {

/// One of the two directions of the image.
#[derive(Clone, Copy, Debug, PartialEq, Eq, Structural)]
pub enum Axis {
    Width,
    Height,
}

/// Why no descriptor was built.
#[derive(Clone, Copy, Debug, PartialEq, Eq, Structural)]
pub enum FontError {
    /// A tile dimension is zero.
    EmptyTile,
    /// The image's extent along `axis` is not a multiple of `divisor`, the
    /// tile's extent along it.
    DimensionMismatch { axis: Axis, divisor: u32 },
}

impl FontError {
    /// The error as a sentence.
    pub open spec fn text(self) -> Seq<char> {
        match self {
            FontError::EmptyTile => "Tile width and height must be greater than 0"@,
            FontError::DimensionMismatch { axis: Axis::Width, divisor } => {
                "Image width must be a multiple of "@ + decimal(divisor as nat)
            },
            FontError::DimensionMismatch { axis: Axis::Height, divisor } => {
                "Image height must be a multiple of "@ + decimal(divisor as nat)
            },
        }
    }

    /// The error as a sentence for the user.
    pub fn message(&self) -> (message: String)
        ensures
            message@ == self.text(),
    {
        match self {
            FontError::EmptyTile => String::from_str("Tile width and height must be greater than 0"),
            FontError::DimensionMismatch { axis: Axis::Width, divisor } => {
                let mut out = String::from_str("Image width must be a multiple of ");
                push_decimal(&mut out, *divisor as u64);
                out
            },
            FontError::DimensionMismatch { axis: Axis::Height, divisor } => {
                let mut out = String::from_str("Image height must be a multiple of ");
                push_decimal(&mut out, *divisor as u64);
                out
            },
        }
    }
}

/// The first fault of the grid, if it has one: an empty tile, then a width
/// that the tile width does not divide, then the same of the height.
pub open spec fn grid_error(img: ImageView, tw: u32, th: u32) -> Option<FontError> {
    if tw == 0 || th == 0 {
        Some(FontError::EmptyTile)
    } else if img.width as int % tw as int != 0 {
        Some(FontError::DimensionMismatch { axis: Axis::Width, divisor: tw })
    } else if img.height as int % th as int != 0 {
        Some(FontError::DimensionMismatch { axis: Axis::Height, divisor: th })
    } else {
        None
    }
}

/// The descriptor of an image whose grid fits.
pub open spec fn descriptor_of(
    img: ImageView,
    face: Seq<char>,
    tw: u32,
    th: u32,
    first: char,
    file: Seq<char>,
) -> DescriptorView {
    DescriptorView {
        face,
        size: tw as nat,
        line_height: th as nat,
        scale_w: img.width,
        scale_h: img.height,
        file,
        glyphs: glyphs(img, tw as int, th as int, first),
    }
}

/// What is said to the user where the image path gives no face name.
pub open spec fn warning_text(output_name: Seq<char>) -> Seq<char> {
    "Warning: "@ + output_name + "'s `file` field (line 3) will need to be adjusted."@
}

/// The text of a descriptor, and a warning for the user where there is one.
pub struct FntOutput {
    pub text: String,
    pub warning: Option<String>,
}

/// A built descriptor as mathematics.
pub struct FntView {
    pub text: Seq<char>,
    pub warning: Option<Seq<char>>,
}

impl View for FntOutput {
    type V = FntView;

    open spec fn view(&self) -> FntView {
        FntView {
            text: self.text@,
            warning: match self.warning {
                Some(w) => Some(w@),
                None => None,
            },
        }
    }
}

/// The outcome of a build as mathematics.
pub open spec fn outcome_view(r: Result<FntOutput, FontError>) -> Result<FntView, FontError> {
    match r {
        Ok(out) => Ok(out@),
        Err(error) => Err(error),
    }
}

/// What building gives: the first fault of the grid, or the text of the
/// descriptor, with a warning where the path has no stem and the face is
/// the default one.
pub open spec fn fnt_of(
    img: ImageView,
    img_path: Seq<char>,
    output_name: Seq<char>,
    tw: u32,
    th: u32,
    first: char,
    file: Seq<char>,
) -> Result<FntView, FontError> {
    match grid_error(img, tw, th) {
        Some(error) => Err(error),
        None => Ok(
            FntView {
                text: descriptor_of(img, face_of(img_path), tw, th, first, file).text(),
                warning: if file_stem(img_path).len() == 0 {
                    Some(warning_text(output_name))
                } else {
                    None
                },
            },
        ),
    }
}

/// Where the image's dimensions are multiples of the tile's, building
/// succeeds, and the descriptor has one glyph and one `char` line for each
/// tile: the image's width in tiles times its height in tiles.
pub proof fn lemma_glyph_count(
    img: ImageView,
    img_path: Seq<char>,
    output_name: Seq<char>,
    tw: u32,
    th: u32,
    first: char,
    file: Seq<char>,
)
    requires
        tw > 0,
        th > 0,
        img.width as int % tw as int == 0,
        img.height as int % th as int == 0,
    ensures
        tile_count(img, tw as int, th as int) == (img.width as int / tw as int) * (img.height as int
            / th as int),
        tile_count(img, tw as int, th as int) >= 0,
        fnt_of(img, img_path, output_name, tw, th, first, file) matches Ok(out) && out.text
            == descriptor_of(img, face_of(img_path), tw, th, first, file).text(),
        descriptor_of(img, face_of(img_path), tw, th, first, file).glyphs.len() == tile_count(
            img,
            tw as int,
            th as int,
        ),
        descriptor_of(img, face_of(img_path), tw, th, first, file).lines().len() == tile_count(
            img,
            tw as int,
            th as int,
        ) + 5,
        descriptor_of(img, face_of(img_path), tw, th, first, file).lines()[3] == chars_line(
            tile_count(img, tw as int, th as int) as nat,
        ),
{
    let cols = img.width as int / tw as int;
    let rows = img.height as int / th as int;
    assert(cols * rows >= 0) by (nonlinear_arith)
        requires
            cols >= 0,
            rows >= 0,
    ;
}

/// Building is a function of its inputs: two builds from the same image,
/// paths and options end alike, with the same text and the same warning.
pub proof fn lemma_build_repeatable(
    img: ImageView,
    img_path: Seq<char>,
    output_name: Seq<char>,
    tw: u32,
    th: u32,
    first: char,
    file: Seq<char>,
    once: Result<FntOutput, FontError>,
    again: Result<FntOutput, FontError>,
)
    requires
        outcome_view(once) == fnt_of(img, img_path, output_name, tw, th, first, file),
        outcome_view(again) == fnt_of(img, img_path, output_name, tw, th, first, file),
    ensures
        outcome_view(once) == outcome_view(again),
        once matches Ok(a) ==> again matches Ok(b) && a.text@ == b.text@ && a@.warning
            == b@.warning,
        once matches Err(a) ==> again matches Err(b) && a == b,
{
}

/// Checks the grid: `Ok` where tiles of `tw` by `th` pixels cover the image
/// exactly.
pub fn check_grid(img: &SourceImage, tw: u32, th: u32) -> (r: Result<(), FontError>)
    ensures
        match r {
            Ok(_) => grid_error(img@, tw, th) is None,
            Err(error) => grid_error(img@, tw, th) == Some(error),
        },
{
    if tw == 0 || th == 0 {
        Err(FontError::EmptyTile)
    } else if img.width() % tw != 0 {
        Err(FontError::DimensionMismatch { axis: Axis::Width, divisor: tw })
    } else if img.height() % th != 0 {
        Err(FontError::DimensionMismatch { axis: Axis::Height, divisor: th })
    } else {
        Ok(())
    }
}

/// Measures the tiles of a fitting grid and puts the descriptor together.
fn assemble(img: &SourceImage, face: String, tw: u32, th: u32, first: char, file: String) -> (d:
    FontDescriptor)
    requires
        grid_fits(img@, tw as int, th as int),
    ensures
        d@ == descriptor_of(img@, face@, tw, th, first, file@),
{
    let records = scan_tiles(img, tw, th, first);
    FontDescriptor {
        face,
        size: tw,
        line_height: th,
        scale_w: img.width(),
        scale_h: img.height(),
        file,
        glyphs: records,
    }
}

/// Builds the descriptor of the image under the given face name, or says
/// what is wrong with the grid.
pub fn build_descriptor(
    img: &SourceImage,
    face: String,
    tw: u32,
    th: u32,
    first: char,
    file: String,
) -> (r: Result<FontDescriptor, FontError>)
    ensures
        match r {
            Ok(d) => grid_error(img@, tw, th) is None && d@ == descriptor_of(
                img@,
                face@,
                tw,
                th,
                first,
                file@,
            ),
            Err(error) => grid_error(img@, tw, th) == Some(error),
        },
{
    match check_grid(img, tw, th) {
        Err(error) => Err(error),
        Ok(_) => Ok(assemble(img, face, tw, th, first, file)),
    }
}

/// The warning for the user of `output_name`.
pub fn warning_message(output_name: &str) -> (message: String)
    ensures
        message@ == warning_text(output_name@),
{
    let mut out = String::from_str("Warning: ");
    out.append(output_name);
    out.append("'s `file` field (line 3) will need to be adjusted.");
    out
}

/// Builds the text of the descriptor of `img`. The face is named after
/// `img_path`; tiles are `width` by `height` pixels; glyphs are numbered
/// from `first`; the page refers to `bitmap_location`. Where `img_path`
/// gives no name the face is `font`, and the result carries a warning that
/// names `output_name`.
pub fn make_fnt(
    img: &SourceImage,
    img_path: &str,
    output_name: &str,
    width: u32,
    height: u32,
    first: char,
    bitmap_location: &str,
) -> (r: Result<FntOutput, FontError>)
    ensures
        outcome_view(r) == fnt_of(
            img@,
            img_path@,
            output_name@,
            width,
            height,
            first,
            bitmap_location@,
        ),
{
    match check_grid(img, width, height) {
        Err(error) => Err(error),
        Ok(_) => {
            let (face, warning) = match face_name(img_path) {
                Some(name) => (name, None),
                None => (String::from_str("font"), Some(warning_message(output_name))),
            };
            let file = String::from_str(bitmap_location);
            let descriptor = assemble(img, face, width, height, first, file);
            Ok(FntOutput { text: descriptor.to_text(), warning })
        },
    }
}

} // verus!
