//! Build-time data compiler for a factory-game reference site.
//!
//! The crate takes closed enumerations of items, producers, technologies and
//! recipes, plus two relational tables (recipe definitions and technology
//! prerequisites), and derives the fully cross-linked document consumed by
//! the front-end: the technology tree with forward and reverse edges, the
//! recipe table, and per-item inverted indices of producing and consuming
//! recipes.  The document and a matching type declaration are emitted as
//! text with verified contracts.

pub mod decls;
pub mod enumeration;
pub mod generator;
pub mod items;
pub mod json;
pub mod laws;
pub mod producers;
pub mod recipe_table;
pub mod recipes;
pub mod schenum_map;
pub mod technologies;
