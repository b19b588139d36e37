pub mod address;
pub mod amount;
pub mod state;
pub mod validate;
pub mod decode;
pub mod instruction;
pub mod reader;
pub mod ops;
pub mod commands;
pub mod config;
pub mod history;
