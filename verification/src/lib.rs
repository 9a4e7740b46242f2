//! TCP Fast Open (TFO) for asynchronous streams and listeners, as verified state machines.

pub mod addr;
pub mod io;
pub mod laws;
pub mod listener;
pub mod stream;
pub mod sys;

pub use self::listener::TfoListener;
pub use self::stream::TfoStream;
