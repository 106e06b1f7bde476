//! A global keyboard shortcut and the notifications it sends: the key
//! combination model and its label, the registry that holds the one
//! system-wide registration, and the dispatcher that turns the platform's
//! raw callbacks into named events for the presentation layer.

pub mod dispatcher;
pub mod lifecycle;
pub mod registry;
pub mod shortcut;
