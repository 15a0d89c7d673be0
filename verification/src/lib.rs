pub mod driver;
pub mod error;
pub mod page;
pub mod status;
pub mod text;
