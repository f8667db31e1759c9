pub mod engine;
pub mod header;
pub mod pipeline;
pub mod session;
pub mod writer;
pub mod laws;
