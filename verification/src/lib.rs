//! Presentation shell of a desktop game launcher, modelled as explicit,
//! verified state machines.
//!
//! The shell assembles a window from a declarative UI description, wires
//! user actions (launch game, open preferences, navigate back) to
//! application behaviour, and reports asynchronous failures through a
//! transient notification mechanism.  The toolkit itself (widget rendering,
//! the event loop, the collaborator calls) stays outside: every decision the
//! shell makes is a function from plain values to plain values, stated in a
//! contract and proved here.

pub mod actions;
pub mod errors;
pub mod navigation;
pub mod notify;
pub mod resolver;
pub mod shell;
