pub mod collections;
pub mod config;
pub mod config_edit;
pub mod error;
pub mod run;
pub mod select;
pub mod text;
