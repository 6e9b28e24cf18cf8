//! Reads the display name and the version of an application out of the text
//! of its JSON configuration document.
//!
//! The crate does no I/O. A caller reads the configuration file and hands the
//! outcome of that read to [`get_app_info`], which parses the text and
//! extracts the two fields, or says which step failed.

pub mod error;
pub mod json;
pub mod reader;

pub use error::{AppInfoError, Failure, Field, CONFIG_FILE};
pub use reader::{extract_app_info, get_app_info, parse_app_info, require_field};
