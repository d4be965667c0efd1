pub mod artifact;
pub mod error;
pub mod key_values;
