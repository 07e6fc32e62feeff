//! Verified core of a domain-driven-design toolkit: the naming rules and
//! accessor rules that the `DomainEvent` derive applies, the translation of
//! field validation failures into domain errors, and timestamp formatting.

pub mod text;
pub mod naming;
pub mod types;
pub mod accessor;
pub mod fields;
pub mod domain_event;
pub mod validation;
pub mod timestamp;
pub mod application_event;

pub use serde;
pub use timestamp::{Timestamp, TimestampExt};
