//! A small retained-mode widget layer: buttons and text fields laid out in window pixels,
//! hit-testing and interaction state, and per-frame batching of all widget geometry into
//! one vertex/index stream in exact device-normalized coordinates.
use vstd::prelude::*;

pub mod button;
pub mod geometry;
pub mod rectangle;
pub mod text;
pub mod text_field;
pub mod ui;

verus! {

} // verus!
