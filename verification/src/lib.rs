//! A message-posting adapter for a native calling convention: a tagged
//! message value, the fixed integer discriminants it carries on the wire,
//! its fixed-size binary form, and the one-slot registry holding the
//! callback through which messages are handed to the external runtime.

pub mod bridge;
pub mod message;
