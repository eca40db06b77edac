//! Verified core of a to-do application built around an animated bottom
//! drawer: the animation driver's interpolation state, the drawer's
//! geometry (panel offset, scrim padding and colour targets), a
//! position-offset widget decorator, and the application's state-update
//! logic. The host GUI runtime renders what this library computes.

pub mod anim;
pub mod app_state;
pub mod date;
pub mod drawer;
pub mod geometry;
pub mod new_task;
pub mod offset;
pub mod task;
