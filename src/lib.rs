pub mod error;
pub mod grammar;
pub mod swift;
pub mod text;

pub use error::{Error, Result};
