//! The logic of a Touch Bar daemon: what the bar shows, and what a finger on it does.
//!
//! [`app`] holds the whole state. It is told of touches, keys and news, and answers with what
//! its caller has to do and to draw. [`config`] turns a configuration into layers of widgets;
//! [`store`] and [`runtime`] keep what is known of the machine and of the programs in front.
//! The other modules work out single parts: which process runs in a terminal, which player or
//! agent is meant, how a request is written and a reply is read.
//!
//! Floating-point numbers are carried as bit patterns ([`number`]); what is worked out with
//! them, such as the place of a finger on the bar, is handed in.
pub mod action;
pub mod app;
pub mod app_bridge;
pub mod backlight;
pub mod bridge;
pub mod browser;
pub mod chromium;
pub mod config;
pub mod context;
pub mod crash;
pub mod function_layer;
pub mod html;
pub mod input;
pub mod json;
pub mod key;
pub mod layer;
pub mod laws;
pub mod mpris;
pub mod number;
pub mod nvim_bridge;
pub mod order;
pub mod paths;
pub mod pi_state;
pub mod remote;
pub mod runtime;
pub mod scan;
pub mod state;
pub mod store;
pub mod terminal;
pub mod text;
pub mod titles;
pub mod touch;
pub mod volume;
pub mod widgets;
