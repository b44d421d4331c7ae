//! A process supervisor for terminal multiplexer sessions: the catalog of
//! processes, the selection and filter state, the frame layout, and the
//! protocol spoken with the multiplexer, all as pure, verified logic.

pub mod color;
pub mod config;
pub mod constants;
pub mod controller;
pub mod draw;
pub mod error;
pub mod frame;
pub mod gui_state;
pub mod input;
pub mod invariants;
pub mod key;
pub mod process;
pub mod repr;
pub mod state;
pub mod text;
pub mod tmux;
pub mod tmux_context;
pub mod tmux_daemon;
