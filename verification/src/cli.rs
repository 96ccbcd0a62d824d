//! The command line's options, and what a run makes of them.

use vstd::prelude::*;
use vstd::string::*;
use crate::builder::{descriptor_of, fnt_of, make_fnt, outcome_view, FntOutput, FontError};
use crate::descriptor::page_line;
use crate::face::face_of;
use crate::glyph::grid_fits;
use crate::source::{ImageView, SourceImage};

verus! {

/// The options of one run.
pub struct Cli {
    /// The path of the image.
    pub input: String,
    /// The path of the descriptor to write.
    pub output: String,
    /// The width of a tile.
    pub width: u32,
    /// The height of a tile.
    pub height: u32,
    /// The width of the space character. Accepted, and not used so far.
    pub space: u32,
    /// The character of the first tile.
    pub first: char,
    /// What the descriptor gives as the image's place; the image's path
    /// where this is `None`.
    pub bitmap_location: Option<String>,
}

impl Cli {
    /// What the `page` line refers to: the bitmap location where one was
    /// given, else the input path as it was given.
    pub open spec fn page_file(&self) -> Seq<char> {
        match self.bitmap_location {
            Some(location) => location@,
            None => self.input@,
        }
    }

    /// Builds the descriptor of the image that was read from `input`. The
    /// caller reads the image and writes the text to `output`.
    pub fn run(self, img: &SourceImage) -> (r: Result<FntOutput, FontError>)
        ensures
            outcome_view(r) == fnt_of(
                img@,
                self.input@,
                self.output@,
                self.width,
                self.height,
                self.first,
                self.page_file(),
            ),
    {
        let location: &str = match &self.bitmap_location {
            Some(location) => location.as_str(),
            None => self.input.as_str(),
        };
        make_fnt(
            img,
            self.input.as_str(),
            self.output.as_str(),
            self.width,
            self.height,
            self.first,
            location,
        )
    }
}

/// The `page` line of a run's descriptor gives the bitmap location where
/// one was supplied, and else the input path, character for character.
pub proof fn lemma_page_file(cli: Cli, img: ImageView)
    requires
        grid_fits(img, cli.width as int, cli.height as int),
    ensures
        fnt_of(
            img,
            cli.input@,
            cli.output@,
            cli.width,
            cli.height,
            cli.first,
            cli.page_file(),
        ) matches Ok(out) && out.text == descriptor_of(
            img,
            face_of(cli.input@),
            cli.width,
            cli.height,
            cli.first,
            cli.page_file(),
        ).text(),
        descriptor_of(
            img,
            face_of(cli.input@),
            cli.width,
            cli.height,
            cli.first,
            cli.page_file(),
        ).lines()[2] == page_line(cli.page_file()),
        cli.bitmap_location matches Some(location) ==> cli.page_file() == location@,
        cli.bitmap_location is None ==> cli.page_file() == cli.input@,
{
}

} // verus!
