//! Converts a tile-sheet image into a BMFont text descriptor.
//!
//! The image is a grid of equally sized glyph cells. Each cell becomes one
//! `char` entry whose advance width is measured from the cell's alpha
//! channel: the column of its rightmost opaque pixel, and two pixels of
//! spacing.

pub mod builder;
pub mod cli;
pub mod convert;
pub mod decimal;
pub mod descriptor;
pub mod face;
pub mod glyph;
pub mod source;
pub mod tile;

pub use builder::{build_descriptor, make_fnt, Axis, FntOutput, FontError};
pub use cli::Cli;
pub use convert::{convert_decoded, Conversion};
pub use descriptor::FontDescriptor;
pub use glyph::GlyphRecord;
pub use source::SourceImage;
