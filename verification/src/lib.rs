//! Encoding of spans and events for operating-system trace consumers.
//!
//! The crate turns structured, dynamically-typed trace records into the
//! fields of TraceLogging events and of EventHeader tracepoints. Every
//! function states its behaviour in a contract that Verus proves.

pub mod activities;
pub mod bytes;
pub mod common_schema;
pub mod emit;
pub mod etw;
pub mod etw_cs;
pub mod fields;
pub mod layer;
pub mod level;
pub mod names;
pub mod native;
pub mod registry;
pub mod time;
pub mod user_events;
pub mod user_events_cs;
pub mod values;
pub mod wire;

pub use level::map_level;
pub use layer::{EtwEventMetadata, EtwFilter, EtwLayer, EtwLayerBuilder, LayerBuilder};
pub use native::{GuidWrapper, ProviderGroup};
