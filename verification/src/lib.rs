//! Alternating mouse sensitivity while the fire button is held: the protocol framing,
//! the decisions and the arithmetic of the panel, proved with Verus.

pub mod brand;
pub mod config;
pub mod engine;
pub mod fire_button;
pub mod foreground;
pub mod hid;
pub mod hidpp;
pub mod hook;
pub mod mouse;
pub mod panel;
pub mod rawaccel;
pub mod scaling;
pub mod shared;
pub mod sinowealth;
pub mod sinowealth_mouse;
pub mod text;
pub mod theme;
