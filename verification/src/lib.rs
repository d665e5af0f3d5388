//! The logic of a small personal website: its static configuration, the
//! table of embedded documents, the renderer that turns a Markdown document
//! with YAML front matter into a page title and an HTML fragment, and what
//! the layout decides before it draws.

pub mod app;
pub mod components;
pub mod documents;
pub mod markdown;
pub mod site_config;
pub mod text;
