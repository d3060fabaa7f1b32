//! Adapters that let a protocol engine written against hyper's executor,
//! accept and duplex-stream interfaces run on async-std sockets.
//!
//! The sockets themselves are polled by the program that owns them. What this
//! library holds is the part that can be reasoned about: for every native
//! poll result, the result that the adapter hands to the engine.

pub mod executor;
pub mod listener;
pub mod poll;
pub mod stream;

pub use executor::HyperExecutor;
pub use listener::HyperListener;
pub use poll::Polled;
pub use stream::HyperStream;
