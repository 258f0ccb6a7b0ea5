pub mod cascade_delete;
pub mod image_generator;
pub mod generator;
