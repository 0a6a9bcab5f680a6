pub mod commands;
pub mod engine;
pub mod filter;
pub mod render;
pub mod laws;
pub mod model;
pub mod provider;
pub mod textnum;
