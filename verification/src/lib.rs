//! A uniform error value for tools that drive `cargo` as a subprocess.
//!
//! A [`CargoError`] says which step failed ([`ErrorKind`]), may carry a line
//! of context, and may own the error that caused it.

pub mod error;
pub mod kind;
pub mod laws;
pub mod model;

pub use error::{CargoError, CargoResult, Cause};
pub use kind::ErrorKind;
pub use model::{CauseModel, ErrorModel};
