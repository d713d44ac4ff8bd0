//! The items that most users need, to be imported in one line.
pub use crate::{OptionExt, ResultExt, Warn, WarnExt};
