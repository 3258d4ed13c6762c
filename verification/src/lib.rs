//! Strongly consistent cache-aside coordination on top of a Redis-compatible
//! store.
//!
//! The crate holds the protocol itself: the four server-side scripts, the
//! load-on-miss dispatch of a script, and the lock protocol that decides when
//! a caller reads the cache, waits, or refreshes the entry. It performs no
//! I/O. A driver sends what the state machines ask for and feeds back what
//! the server answered.

pub mod client;
pub mod duration;
pub mod entry;
pub mod error;
pub mod executor;
pub mod fetch;
pub mod flight;
pub mod fraction;
pub mod laws;
pub mod options;
pub mod script;
pub mod value;

pub use client::Client;
pub use duration::Duration;
pub use entry::Entry;
pub use error::CacheError;
pub use executor::{Arg, Command, Dispatch, Reply, ScriptCall, Stage};
pub use fetch::{Action, Event, Fetch, Loaded, Outcome, State, Step};
pub use fraction::Fraction;
pub use options::Options;
pub use value::{Lock, Value};
