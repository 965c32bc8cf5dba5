//! Decision logic of an interactive command-line client for a remote
//! text-completion service: configuration defaults, the single-select list,
//! the configuration wizard, request building, reply reading and the query
//! loop. Terminal, file and network traffic belong to the program that drives
//! this library.

pub mod client;
pub mod config;
pub mod json;
pub mod select;
pub mod session;
pub mod text;
pub mod wizard;

pub use client::build_api_url;
pub use config::{select_model, select_verbosity, Config, Verbosity};
pub use select::select_from_list;
pub use wizard::{prompt_for_config, select_model_and_option};
