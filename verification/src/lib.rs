//! Converting Latin text into Circular Gallifreyan: letters, words, sentences and
//! the decorations drawn on them.

pub mod text;
pub mod event_set;
pub mod image_types;
pub mod menu_bar;
pub mod plugins;
