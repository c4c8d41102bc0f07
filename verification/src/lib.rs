//! A terminal manager for NetworkManager WireGuard and VPN profiles: the verified core.
//!
//! The modules hold the text handling, the theme model, the parsing of `nmcli` output,
//! the application state machine and the popup geometry.

pub mod text;
pub mod theme;
pub mod profiles;
pub mod files;
pub mod app;
pub mod layout;
pub mod view;
