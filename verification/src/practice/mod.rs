pub mod planner;
pub mod image_generator;
pub mod generator;
