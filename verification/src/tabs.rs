//! The tab bar and its parts.

pub mod explorer_subclass;
pub mod geometry;
pub mod laws;
pub mod tab;
pub mod tab_bar;
pub mod tab_control;
pub mod travel_bar_control;
