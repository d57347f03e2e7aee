//! Aggregation of completion suggestions from several independent providers.
//!
//! Language servers and the built-in path completer answer a completion
//! request at their own pace.  Each answer is folded, in arrival order, into
//! one ordered list of items that the picker reads through a small set of
//! accessors.  Every executable function carries a contract that Verus
//! proves.

pub mod icons;
pub mod item;
pub mod payload;
pub mod provider;
pub mod response;
pub mod text;
