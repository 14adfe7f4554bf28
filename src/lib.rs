//! Connection admission, session lifecycle and view-model logic for a
//! terminal portfolio served over secure shell.
pub mod app_state;
pub mod components;
pub mod config;
pub mod connection;
pub mod content;
pub mod gate;
pub mod keymap;
pub mod model;
pub mod monitor;
pub mod msg;
pub mod rate_limit;
pub mod text;
pub mod view;
pub mod views;
pub mod widgets;
