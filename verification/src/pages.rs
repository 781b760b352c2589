//! The pages of the catalog.

pub mod laws;
pub mod lifecycle;
pub mod product_detail;
pub mod rendering;
