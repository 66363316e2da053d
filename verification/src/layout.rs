pub mod container;
pub mod footer;
pub mod hero;
pub mod level;
pub mod media;
