//! Renders nested spans and the events inside them as an indented tree of text.
pub mod fields;
pub mod indent;
pub mod layer;
pub mod level;
pub mod plain;
pub mod style;
pub mod timing;
pub mod wrap;

pub use fields::Field;
pub use layer::{HierarchicalLayer, SpanRecord};
pub use level::Severity;
