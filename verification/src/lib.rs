//! Synthesizes rotated fake log files for exercising log-processing
//! pipelines: a configurable number of lines per file, a configurable
//! number of rotated files, and synthetic timestamps spread across a
//! time window with bounded random gaps between entries.

pub mod config;
pub mod digits;
pub mod gen;
pub mod randsrc;
pub mod template;
pub mod timefmt;
