//! A CPU-scheduling latency profiler: the verified logic that plans a run,
//! calibrates the busy loop, turns clock readings into sample records and
//! steers the coordinator through spawning and waiting for its workers.
pub mod decimal;
pub mod config;
pub mod clock;
pub mod calibrate;
pub mod schedule;
pub mod worker;
pub mod coordinator;
pub mod output;
