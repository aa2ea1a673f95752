//! Verified core of a panel applet for the LDS speech-to-text daemon: the
//! daemon's wire messages, the applet's state machine, what its panel and
//! popup show, and the reconnecting connection to the daemon.

pub mod daemon;
pub mod json;
pub mod text;
pub mod applet;
pub mod protocol;
pub mod decimal;
pub mod view;
pub mod ipc;
pub mod laws;
