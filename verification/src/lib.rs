//! Verified core of a fiducial-tag detection loop: overlay geometry derived
//! from detected tag corners, a rolling frame-rate window, adapters that
//! normalize detector and pose-solver results, and the per-iteration
//! decisions of the acquisition-render loop.

pub mod detect;
pub mod framerate;
pub mod geometry;
pub mod looprun;
