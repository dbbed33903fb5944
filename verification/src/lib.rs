//! Translation of a storage engine's internal statistics into updates of a
//! metrics registry, and the lifecycle of the periodic flusher that drives it.

pub mod family;
pub mod flusher;
pub mod histogram;
pub mod laws;
pub mod partition;
pub mod pass;
pub mod ticker;
pub mod translate;
pub mod update;
