pub mod client;
pub mod cursor;
pub mod error;
pub mod handle;
pub mod laws;
pub mod marshal;
pub mod native;
pub mod query;
pub mod value;
