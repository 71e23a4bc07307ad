pub mod color;
