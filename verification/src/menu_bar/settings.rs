pub mod vocal_nesting;
