pub mod position;
pub mod terms;
pub mod engine;
pub mod laws;
