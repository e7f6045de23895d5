//! Verified core of the `cargo actions` command-line tool: the rules it
//! applies to repository addresses, favourites, prompts, template data and
//! server replies, separated from the terminal, file and network work.

pub mod cli;
pub mod config;
pub mod digest;
pub mod favorites;
pub mod git_url;
pub mod graphql;
pub mod json;
pub mod numbers;
pub mod path_configs;
pub mod paths;
pub mod templates;
pub mod text;
pub mod token;
pub mod upload;
