//! Streams on systems that descend from BSD.

pub mod freebsd;
pub mod macos;
