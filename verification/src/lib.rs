//! A wrapper around the command-line interface of an external ROM-editing
//! tool. The crate renders each supported operation into the exact command
//! line the tool expects, and models the invocation protocol (tool check,
//! temporary log file, launch, log read, exit-status classification) as a
//! verified state machine; the process and file system work itself is left
//! to the embedding application.

pub mod invoke;
pub mod text;
pub mod tokens;
pub mod wrapper;

pub use invoke::{Advance, Event, ExitInfo, Phase, ResultL, WrapperErr, advance, shell_line};
pub use text::{dec_digits, dec_int, token_count};
pub use tokens::{CompressionFormat, LevelExportFlag, LevelImportFlag, RomSize};
pub use wrapper::Wrapper;
