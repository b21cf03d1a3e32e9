//! Builder-style appearance records for iced widgets.
//!
//! Each style holds one appearance record per interaction state and a
//! selected state; setters write into the record of the selected state
//! and leave everything else as it was.

pub mod container;
pub mod scrollable;
pub mod svg;
pub mod text;
pub mod text_input;
pub mod toolkit;
