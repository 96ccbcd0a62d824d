//! From the outcome of decoding an image file to the text that a host
//! shows: the descriptor, or what went wrong.

use vstd::prelude::*;
use vstd::string::*;
use crate::builder::{fnt_of, grid_error, make_fnt, warning_text};
use crate::face::file_stem;
use crate::source::{ImageView, SourceImage};

verus! {

/// The name under which the warning speaks of the descriptor when no file
/// is written.
pub open spec fn unnamed_output() -> Seq<char> {
    "fnt file"@
}

/// The outcome of decoding as mathematics: the image, or the decoder's
/// message.
pub open spec fn decoded_view(decoded: Result<SourceImage, String>) -> Result<
    ImageView,
    Seq<char>,
> {
    match decoded {
        Ok(img) => Ok(img@),
        Err(message) => Err(message@),
    }
}

/// The text of a conversion: the decoder's message, or the text of the
/// descriptor, or what is wrong with the grid. The page refers to the image
/// path.
pub open spec fn conversion_text(
    decoded: Result<ImageView, Seq<char>>,
    image_path: Seq<char>,
    width: u32,
    height: u32,
    first_char: char,
) -> Seq<char> {
    match decoded {
        Err(message) => message,
        Ok(img) => match fnt_of(
            img,
            image_path,
            unnamed_output(),
            width,
            height,
            first_char,
            image_path,
        ) {
            Ok(out) => out.text,
            Err(error) => error.text(),
        },
    }
}

/// The warning of a conversion: that of the build where a descriptor was
/// built, and none where decoding or the grid failed.
pub open spec fn conversion_warning(
    decoded: Result<ImageView, Seq<char>>,
    image_path: Seq<char>,
    width: u32,
    height: u32,
    first_char: char,
) -> Option<Seq<char>> {
    match decoded {
        Err(_) => None,
        Ok(img) => match fnt_of(
            img,
            image_path,
            unnamed_output(),
            width,
            height,
            first_char,
            image_path,
        ) {
            Ok(out) => out.warning,
            Err(_) => None,
        },
    }
}

/// What a conversion hands to its host: the text to return, and a warning
/// for the diagnostic stream where there is one.
pub struct Conversion {
    pub text: String,
    pub warning: Option<String>,
}

/// Finishes a conversion once the image file was decoded. The text is the
/// decoder's message where decoding failed; else the descriptor of the
/// image, or what is wrong with the grid. A descriptor whose face could not
/// be named after `image_path` comes with a warning; the fallback is no
/// failure.
pub fn convert_decoded(
    decoded: Result<SourceImage, String>,
    image_path: &str,
    width: u32,
    height: u32,
    first_char: char,
) -> (r: Conversion)
    ensures
        r.text@ == conversion_text(decoded_view(decoded), image_path@, width, height, first_char),
        match r.warning {
            Some(warning) => conversion_warning(
                decoded_view(decoded),
                image_path@,
                width,
                height,
                first_char,
            ) == Some(warning@),
            None => conversion_warning(
                decoded_view(decoded),
                image_path@,
                width,
                height,
                first_char,
            ) is None,
        },
        r.warning is Some <==> (decoded matches Ok(img) && grid_error(img@, width, height) is None
            && file_stem(image_path@).len() == 0),
        r.warning matches Some(warning) ==> warning@ == warning_text(unnamed_output()),
{
    match decoded {
        Err(message) => Conversion { text: message, warning: None },
        Ok(img) => match make_fnt(
            &img,
            image_path,
            "fnt file",
            width,
            height,
            first_char,
            image_path,
        ) {
            Ok(out) => Conversion { text: out.text, warning: out.warning },
            Err(error) => Conversion { text: error.message(), warning: None },
        },
    }
}

} // verus!
