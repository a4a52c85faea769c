//! Plain data carried through the pipeline.

pub mod constant;
pub mod email;
pub mod subtitle;
pub mod task;
pub mod video;
pub mod worker;
