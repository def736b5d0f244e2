//! A coffee shop's carts, inventory and pricing rules.
pub mod handlers;
pub mod model;
pub mod parse;
