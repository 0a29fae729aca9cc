//! The engine binding's data: formats, values, events and errors.

pub mod binding;
pub mod error;
pub mod event;
pub mod models;
pub mod node;
pub mod payload;
pub mod text;

pub use error::Error;
pub use event::{EndFile, EndFileReason, Event, Hook, LogMessage, MpvLogLevel, StartFile};
pub use models::{MapEntry, MpvFormat, MpvNode, NodeModel, PropertyModel, PropertyValue};
pub use node::{RawEntry, RawNode};
