pub mod types;
pub mod evm;
pub mod forge;
pub mod middleware;
pub mod fill;
pub mod memvm;
pub mod laws;
