pub mod image;
pub mod encoding;
