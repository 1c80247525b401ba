//! Documentation of published Rust libraries as plain text.
//!
//! A path such as `serde::de::Visitor` names an item of a library. This
//! crate finds the address of the item's page on docs.rs, finds out the
//! item's kind from the listing of its container where the caller does not
//! give it, takes the documentation out of the fetched page and turns it
//! into clean Markdown.
//!
//! The crate sends no request itself. [`pipeline`] says which address to
//! fetch next and what to make of the reply; the caller does the fetching.

pub mod chars;
pub mod error;
pub mod extract;
pub mod fetch;
pub mod html;
pub mod identifier;
pub mod infer;
pub mod item_type;
pub mod markdown;
pub mod pipeline;
pub mod plain;
pub mod resolver;
pub mod search;
pub mod text;
