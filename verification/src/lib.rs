pub mod bridge;
pub mod cli;
pub mod error;
pub mod format;
pub mod value;
