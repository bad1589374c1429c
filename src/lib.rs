//! Navigation and focus core of a terminal market dashboard: a two-level
//! menu, a focus router over the screen regions, the decisions of the
//! event loop, and the registry of background tasks.

pub mod dashboard;
pub mod events;
pub mod i18n;
pub mod menu;
pub mod network;
pub mod pages;
pub mod task;
pub mod window;
