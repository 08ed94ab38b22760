//! Traits for the DOM interfaces that elements implement.

pub mod security;
pub mod node;
pub mod element;
pub mod html_element;
pub mod content_categories;
