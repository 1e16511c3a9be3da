pub mod bls;
pub mod merkle;
pub mod signature;
pub mod types;
