//! Control logic of a realtime audio correction engine: fader state, the
//! loudness stage's decisions, the playback rate controller, signal-level
//! statistics, sample-format clipping, the capture silence gate, the
//! processing graph's structure and the supervisor's state machine.
//!
//! Levels are held in integers: volumes in millidecibels (1/1000 dB), speed
//! factors in parts per million, samples on the integer scale of their format.
pub mod conversion;
pub mod graph;
pub mod loudness;
pub mod pipeline;
pub mod ratecontrol;
pub mod signal;
pub mod status;
pub mod supervisor;
pub mod volume;
