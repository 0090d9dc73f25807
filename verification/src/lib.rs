//! Scheduling core of an attribute poll engine: when each registered
//! attribute is due, how far apart two polls must lie, and what the engine
//! does with a command, a store notification or an elapsed timer.

pub mod attribute;
pub mod attribute_stream_ext;
pub mod config;
pub mod poll_engine;
pub mod poll_entries;
pub mod poll_mark;
pub mod timing;

pub use config::PollEngineConfig;
