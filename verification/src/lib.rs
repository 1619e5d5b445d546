//! A locale-data name-resolution and pattern-interpolation engine for
//! date/time formatting.
//!
//! The crate loads locale-specific display names (months, weekdays, eras,
//! day periods, time-zone names) from a pluggable data backend, caches them
//! exactly once per category, and interpolates them into a pattern: a
//! sequence of literal and field items.  Formatting is total: a field that
//! cannot be resolved degrades to a placeholder and a structured error while
//! the rest of the pattern is still produced.

pub mod fields;
pub mod length;
pub mod data;
pub mod errors;
pub mod slots;
pub mod backend;
pub mod input;
pub mod names;
pub mod load;
pub mod decimal;
pub mod zone;
pub mod format;
pub mod typed;
pub mod options;
pub mod skeleton;
pub mod combo;
pub mod varzero;
