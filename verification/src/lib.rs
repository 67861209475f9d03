//! A small configuration-loading library.
//!
//! Given raw text (read from a file by the caller), the library decodes
//! structured configuration data (TOML or JSON) into a strongly typed
//! structure, then runs domain-specific validation before handing back a
//! trusted, validated instance.

pub mod codec;
pub mod config;
pub mod error;
pub mod parser;
pub mod sample;
pub mod schema;
pub mod validate;

pub use config::Config;
pub use error::ConfigError;
pub use parser::parse_config_file;
pub use parser::ConfigFormat;
pub use schema::render_schema;
pub use validate::Validate;
