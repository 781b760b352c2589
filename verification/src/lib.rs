//! A verified model of a small catalog front end: the product record, the
//! fetch lifecycle of the product detail page, what that page renders in each
//! state, and the mapping from URL paths to pages.

pub mod api;
pub mod callback;
pub mod components;
pub mod decimal;
pub mod pages;
pub mod route;
pub mod text;
pub mod types;
