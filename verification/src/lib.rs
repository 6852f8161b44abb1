//! Query and subscribe to the Windows Event Log without linking against the
//! event subsystem.
//!
//! The crate holds the decisions of the binding layer and the query builder.
//! It never talks to the operating system itself: every operation that needs
//! the host hands out a [`host::Call`] and is resumed with the host's
//! [`host::Reply`].

pub mod api;
pub mod host;
pub mod prelude;
pub mod query_list;
pub mod registry;
pub mod subscriber;
pub mod text;
pub mod wide;
