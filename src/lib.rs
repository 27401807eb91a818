//! Request routing, host guards and a shared request counter for a small
//! HTTP service, with every decision stated and proved.

pub mod counter;
pub mod decimal;
pub mod handlers;
pub mod routing;
