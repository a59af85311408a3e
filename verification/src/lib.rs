pub mod apply;
pub mod config;
pub mod errors;
pub mod resolve;
pub mod theme;
pub mod version;
