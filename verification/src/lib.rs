//! Crate-label generation for purchase orders: the rows of a purchase
//! order become one label per crate, and each label becomes one page of
//! drawing operations in nanometre coordinates.

pub mod text;
pub mod calendar;
pub mod labels;
pub mod request;
pub mod layout;
