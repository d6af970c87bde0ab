//! Process-creation telemetry: normalization of raw notification records,
//! a verified hand-off queue between producer and consumer, the connect and
//! retry state machine, and the text the sinks show for each event.

pub mod channel;
pub mod event;
pub mod live_view;
pub mod render;
pub mod subscription;
pub mod text;
pub mod timestamp;
