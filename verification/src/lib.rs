//! A minimal WebDriver wire-protocol client.
//!
//! The library is split in two layers: `http` builds one HTTP/1.1 request
//! per call and extracts the JSON body from a raw response, and `driver`
//! layers the WebDriver session and element operations on top of that,
//! keeping the session token as its only long-lived state. The socket
//! itself is handed in by the caller through the [`http::Transport`]
//! trait, so every decision the client makes is verified here.

pub mod json;
pub mod http;
pub mod driver;
