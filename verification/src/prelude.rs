//! The names that most callers need.

pub use crate::api::{Error, Event, EvtApi, EvtHandleWrapper, WinEvents, WinEventsIntoIterator};
pub use crate::host::{Call, Reply, Step};
pub use crate::query_list::{
    Comparison, Condition, EventFilter, Query, QueryItem, QueryItemType, QueryList,
};
pub use crate::registry::{Capability, Registry};
pub use crate::subscriber::{HandleWrapper, WinEventsSubscriber};
pub use crate::text::IntoText;
