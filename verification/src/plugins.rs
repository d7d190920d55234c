pub mod color_theme;
pub mod constraints;
pub mod file;
pub mod selection;
pub mod svg;
pub mod text_converter;
