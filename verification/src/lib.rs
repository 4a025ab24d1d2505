pub mod address;
pub mod asset;
pub mod call;
pub mod config;
pub mod error;
pub mod flow;
pub mod moralis;
pub mod text;
pub mod wrapper;
