pub mod image;
pub mod plane;
