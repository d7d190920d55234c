pub mod style;
