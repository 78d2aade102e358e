//! Helpers on text, time, JSON values and errors.

pub mod clock;
pub mod failure;
pub mod json;
pub mod sorting;
pub mod stored;
pub mod text;
pub mod text_map;
