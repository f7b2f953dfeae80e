//! The widgets of the retained tree, one kind per module.

pub mod backdrop_blur;
pub mod checkbox;
pub mod portal;
