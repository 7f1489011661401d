//! Relocation of a single file into the temporary directory, as a pure core:
//! the error taxonomy and its rendering, the derived destination path, the
//! reported lines, and the copy-then-delete state machine. All filesystem work
//! is left to the caller, which performs the actions this crate asks for and
//! hands their outcomes back.

pub mod args;
pub mod decimal;
pub mod destination;
pub mod diagnostic;
pub mod error;
pub mod history;
pub mod phase;
pub mod relocate;

pub use args::get_input_file;
pub use destination::destination_path;
pub use diagnostic::{Diagnostic, Stream};
pub use error::{FileError, OsError};
pub use phase::{Action, Event, Phase};
pub use relocate::{copy_file, delete_file, Relocation};
