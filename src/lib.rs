//! Non-fatal, strongly typed diagnostics.
//!
//! A routine that can go on after a recoverable problem takes one more argument,
//! `warn: &mut impl Warn<E>`, and pushes each problem into it. The caller picks what
//! happens to them by the sink it passes down: see [`sink`].
mod base;
mod ext;
mod sealed;

pub mod prelude;
pub mod sink;

pub use base::{Adapt, AdaptMap, Warn, WarnExt, lemma_warned_all_concat, lemma_warned_all_push, warned_all};
pub use ext::{OptionExt, ResultExt};
pub use sink::{CollectAll, FromFn, Ignore, KeepFirst, KeepLast, Stderr, from_fn};
