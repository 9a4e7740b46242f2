//! What holds of streams and listeners over any number of steps.

pub mod address;
pub mod call;
pub mod connect;
pub mod listen;
pub mod resource;
pub mod step;
pub mod write;
