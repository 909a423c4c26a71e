pub mod success;
pub mod error;
