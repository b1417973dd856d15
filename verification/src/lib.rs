//! Dynamic DNS for a single record: watch the public address of this host and
//! push it to the DNS provider whenever it differs from the last address the
//! provider confirmed.
//!
//! The crate holds every decision of that job and none of its input or
//! output. A caller resolves the address, sends the request and sleeps; the
//! [`poller::Poller`] says what to do next and which line to log.

pub mod config;
pub mod json;
pub mod notice;
pub mod poller;
pub mod record;
pub mod request;
pub mod response;
pub mod text;
pub mod trace;
