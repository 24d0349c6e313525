//! Content model, page rendering and request handling for a small
//! portfolio site: a roster of people, per-language interface copy,
//! HTML views and a closed list of static assets.
pub mod assets;
pub mod data;
pub mod pages;
pub mod render;
