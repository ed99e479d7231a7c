//! The event loop of an application that runs on a dedicated web worker and draws to a canvas
//! owned by the page.

pub mod attaching;
pub mod callback;
pub mod event;
pub mod host;
pub mod laws;
pub mod queue;
pub mod quiet;
pub mod runner;
pub mod shared;
pub mod time;
pub mod waker;
pub mod worker;
pub mod world;
