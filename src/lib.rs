//! Asset lookup and start-up event forwarding for a webview desktop shell.
//!
//! `locate` resolves a request for a bundled asset by an ordered,
//! first-match search over the host's directories; the caller answers each
//! existence probe and performs the read, so the search itself does no I/O.
//! `forward` decides which command-line and drop events reach the frontend.
//! `paths` turns host-reported directories into plain paths.
pub mod forward;
pub mod locate;
pub mod paths;
