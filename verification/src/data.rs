//! The canonical, format-independent records produced by extraction.

pub mod dependency;
pub mod difference;
pub mod export;
pub mod import;
pub mod info;
