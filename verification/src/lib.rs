//! Reads the in-camera recipe of a Fujifilm photograph from its metadata tags.

pub mod exif;
pub mod number;
pub mod recipe;
pub mod text;
