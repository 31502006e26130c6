pub mod config;
pub mod engine;
pub mod filter;
pub mod hashing;
pub mod occupancy;
pub mod rng;
pub mod store;
pub mod summary;
pub mod text;
