//! The keys of the log exchange that routes by topic: a location and a
//! level, joined by a dot.

pub mod binding_key;
pub mod loc_loglevel;
pub mod location;
pub mod loglevel;
pub mod routing_key;
pub mod split;

pub use binding_key::BindingKey;
pub use binding_key::KeyError;
pub use loc_loglevel::LocLogLevel;
pub use location::Location;
pub use loglevel::LogLevel;
pub use routing_key::RoutingKey;
