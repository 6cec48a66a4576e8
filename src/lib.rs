//! Monitoring engine for named handles: registry merging, loss detection,
//! drop-window prediction, batch scheduling and outcome classification.

pub mod instant;
pub mod window;
pub mod text;
pub mod registry;
pub mod probe;
pub mod scheduler;
pub mod metrics;
pub mod notice;
