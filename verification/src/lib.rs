pub mod digits;
pub mod driver;
pub mod error;
pub mod fetch;
pub mod header;
pub mod path;
