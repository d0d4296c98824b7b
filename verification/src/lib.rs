//! The interface layer of Courier, a desktop companion that follows Dota 2
//! players: its screens' state and decisions, the shared player list, the
//! toasts, the theme, and the background tracker's planning. Drawing and
//! I/O live with the application around it.

pub mod app;
pub mod async_bridge;
pub mod icons;
pub mod text;
pub mod order;
pub mod model;
pub mod components;
pub mod error;
pub mod theme;
pub mod string_set;
pub mod screens;
pub mod tracker;
