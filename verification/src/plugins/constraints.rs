pub mod angle;
