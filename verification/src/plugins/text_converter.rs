pub mod children;
pub mod components;
pub mod letter;
pub mod line_slot;
pub mod sentence;
