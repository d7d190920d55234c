pub mod letter;
