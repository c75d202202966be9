//! What a transport layer calls, and what it gets back.

pub mod handler;
