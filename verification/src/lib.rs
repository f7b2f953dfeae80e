//! A retained widget tree kept in step with immutable view descriptors.
//!
//! Each time application state changes, the application describes its whole
//! interface anew as a tree of views. The functions of [`view`] compare the
//! new description with the previous one and apply the difference to the
//! live [`element`] tree: changed properties are written through a mutation
//! handle, which reports each change once to the [`invalidation`] journal,
//! and a child of another kind is torn down and built afresh. Messages raised
//! in the widget tree travel back along a path of widget identifiers.

pub mod element;
pub mod id;
pub mod invalidation;
pub mod laws;
pub mod message;
pub mod passes;
pub mod style;
pub mod view;
pub mod widgets;
