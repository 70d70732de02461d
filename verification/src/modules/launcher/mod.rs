//! The launcher: a row of items, shown a page at a time.

pub mod pagination;
