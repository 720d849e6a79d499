//! Camera-to-texture frame pipeline: pixel conversion, latest-wins frame
//! hand-off, texture synchronisation and the capture/startup state machines.

pub mod channel;
pub mod frame;
pub mod lifecycle;
pub mod pixel;
pub mod sync;
pub mod texture;
pub mod worker;
