//! Verified core of an audio backend: the block-by-block declick state
//! machine of the timeline's audio clips and the pool of shared graph
//! resources.

pub mod timeline;
pub mod declick;
pub mod declick_laws;
pub mod resource_pool;
