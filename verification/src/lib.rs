//! A deep-link callback bridge: the native side of an OAuth redirect flow.
//!
//! The operating system delivers raw URI activation strings to the process.
//! A listener owns the one-time registration of the custom URI scheme; a
//! router classifies each activation by substring containment and, when it
//! matches the identity-provider marker, publishes a named event carrying
//! the unmodified activation string to the attached UI session.

pub mod bridge;
pub mod classify;
pub mod event;
pub mod greeting;
pub mod listener;
pub mod router;

pub use bridge::Bridge;
pub use bridge::run;
pub use event::BridgeEvent;
pub use greeting::greet;
pub use listener::BridgeState;
pub use listener::Listener;
pub use listener::RegistrationError;
pub use router::RouteOutcome;
pub use router::Router;
pub use router::Session;
