//! Verified core of a glyph editor: commands and key bindings, the glyph
//! model and its `.glif` reader, the editor's undo history, layers and
//! selection, and the small parsers the user interface relies on.
#![allow(non_snake_case)]

use vstd::prelude::*;

pub mod command;
pub mod text;
pub mod xml;
pub mod numparse;
pub mod glifparser;
pub mod layer;
pub mod editor;
pub mod events;
pub mod reclutch_skia;

verus! {

} // verus!
