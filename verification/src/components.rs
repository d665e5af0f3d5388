//! What the page components decide before they draw.

pub mod layout;
