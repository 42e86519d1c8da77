//! Decision logic of a merge bot that feeds GitLab merge requests through a
//! queue one at a time: it rebases them, enables auto-merge, watches their
//! pipelines and records how each of them ended.

pub mod api;
pub mod config;
pub mod merge_queue;
pub mod round;
pub mod stages;
pub mod time;
