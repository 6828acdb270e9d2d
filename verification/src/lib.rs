//! User-facing termination for command-line programs.
//!
//! A failed computation is rendered as its description followed by one
//! `Caused by: ...` line per underlying cause, optionally followed by a
//! hint for the user, and the program is asked to stop with a non-zero
//! exit status.
//!
//! ```
//! use giveup::{ErrorValue, Example, Giveup};
//!
//! let config: Result<(), ErrorValue> = Err(ErrorValue::new("no such file"));
//! let outcome = config
//!     .hint("Create a configuration file")
//!     .example("touch config-filename")
//!     .giveup("Missing configuration file");
//! let end = outcome.unwrap_err();
//! assert!(end.diagnostic.ends_with(
//!     ": no such file\nCreate a configuration file: `touch config-filename`\n"
//! ));
//! assert_eq!(end.status, 1);
//! ```
//!
//! Nothing here writes or exits: `giveup` hands back the diagnostic and the
//! status, and the caller carries them out.

pub mod emphasis;
pub mod error;
pub mod giveup;
pub mod hint;
pub mod interop;

pub use crate::error::{format_err_msg, ErrorValue};
pub use crate::giveup::{Giveup, GiveupFormatError, Termination};
pub use crate::hint::{Example, HintedError};
