//! Decoding of a game's binary dungeon file: a list of floors, each with a
//! title and up to eight layout variants, each layout with a 48 by 32 tile grid
//! and the offsets of its auxiliary tables.
//!
//! Every decoder takes the whole buffer and an absolute byte offset into it,
//! and returns owned data. Each one is specified by a spec function over the
//! buffer's bytes that says what the format means.

pub mod error;
pub mod pointer;
pub mod glyph;
pub mod text;
pub mod layout;
pub mod floor;
pub mod dungeon;
pub mod laws;

pub use dungeon::Dungeon;
pub use error::{Context, DataPart, DecodeError, ErrorKind};
pub use floor::Floor;
pub use glyph::GlyphTable;
pub use layout::{FloorPlan, Layout};
pub use pointer::parse_ptr;
pub use text::{parse_list, parse_string, parse_string_piece};
