pub mod engine;
pub mod laws;
pub mod mood;
pub mod state;
pub mod stats;
