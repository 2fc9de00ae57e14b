//! State machine of a terminal dashboard that monitors a short list of named
//! network services.
//!
//! The crate holds the data model and the controller (`status`, `app`), the
//! mathematical model of the dashboard (`state`), the event vocabulary with
//! the channel between the event producers and the consumer (`events`), and
//! the laws that hold of all of them (`laws`). Terminal input, drawing,
//! threads and the durable store live outside of it: they hand plain values
//! in and carry the returned `Action` out.

pub mod status;
pub mod events;
pub mod state;
pub mod app;
pub mod laws;
