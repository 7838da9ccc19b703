//! Core of a scripting host: it loads user script modules into one shared
//! interpreter environment, marshals platform events into capability objects
//! with a fixed field and action surface, and sequences handler invocation
//! against the inbound event stream.

pub mod dispatch;
pub mod events;
pub mod loader;
pub mod logging;
pub mod lua_host;
pub mod reply;
