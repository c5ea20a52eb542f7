//! Circumvention Chronicles: the rules of a small puzzle game about filter
//! circumvention, played half in a desktop window and half in a browser
//! that talks to a local web server.
//!
//! - `support`: the window's game state (age notice, level count, hint).
//! - `level`: the levels, their texts, their buttons and how the web server
//!   answers during each of them.
//! - `random`: made-up names, paths and noise, drawn with rand.
//! - `cache`: the browser cache dump of the cache puzzle.
//! - `http`: the web server's own rules.
//! - `text`: decimal numbers, local addresses and text comparison.

pub mod cache;
pub mod http;
pub mod level;
pub mod random;
pub mod support;
pub mod text;

pub use cache::{build_cache, local_url_bytes};
pub use http::GameServer;
pub use level::{
    launch_web, launch_web_at_path, Asset, Body, CacheState, Level, Method, OfflineState,
};
pub use random::{alnum, garbage, path};
pub use support::GameState;
pub use text::{decimal, local_url, same_text, PORT};
