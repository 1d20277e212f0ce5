pub mod capture;
pub mod config;
pub mod filter;
pub mod keys;
pub mod notify;
pub mod registry;
pub mod state;
pub mod text;
pub mod window_info;
