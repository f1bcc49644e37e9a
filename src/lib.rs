pub mod casing;
pub mod document;
pub mod literal;
pub mod metrics;
