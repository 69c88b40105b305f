//! Catalog engine of a single store: the item data model, the tables an item
//! owns, and the resolution of a requested attribute combination to page data.
pub mod unit;
pub mod data;
pub mod item;
pub mod catalog;
pub mod log;
