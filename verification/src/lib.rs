pub mod auctions;
pub mod commitment;
pub mod contract;
pub mod host;
pub mod market;
pub mod phase;
pub mod resolution;
pub mod royalty;
pub mod storage;
pub mod types;
pub mod validator;
