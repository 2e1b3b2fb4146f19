//! Identification of executable files: the container format of a binary, the
//! processor it targets, and a rough guess at the language it was written in.
//!
//! Everything here works on values already in memory. Reading files and
//! printing are left to the caller.

pub mod arch;
pub mod cli;
pub mod container;
pub mod language;
pub mod report;
pub mod run;
pub mod scan;

pub use arch::{get_architecture_name_elf, get_architecture_name_pe};
pub use cli::{help_lines, parse_command, read_error_line, usage_line, Command};
pub use container::{classify, Container, ParseError};
pub use language::{detect_language, Language};
pub use report::{analyze, report_lines};
pub use run::{respond_to_read, Output};
pub use scan::{contains_token, TokenFamily};
