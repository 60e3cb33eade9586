//! Navigation routes and window chrome for a desktop application.
//!
//! The crate has two independent parts: a navigation state container
//! (`route`, `state`) that tracks which screen is active and notifies
//! subscribers on change, and a title-bar layout policy (`title_bar`)
//! that decides how the custom window chrome looks on each platform.

pub mod route;
pub mod state;
pub mod title_bar;
