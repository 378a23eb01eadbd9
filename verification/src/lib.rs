//! Decision logic for keeping a bounding-box lock on one moving target in
//! a live video stream.
//!
//! A fast tracker follows the target from frame to frame. Where it is not
//! trusted, a second tracker takes over from the last trusted observation;
//! where that fails too, the target is acquired anew from what a detector
//! finds. The crate holds the rules of that cascade and of the session that
//! feeds it with frames. It runs no tracker, no detector and no stream:
//! its caller does, and reports what came back.
//!
//! - `geometry`: rectangles and their overlap ratio.
//! - `region`: a box grown by a margin and cut to the frame; the centred crop.
//! - `confidence`: confidence values and the thresholds of a tracker pair.
//! - `cascade`: the state machine of one track.
//! - `reacquire`: the choice of the detection to restart from.
//! - `detector`: from a detector's rows to detections.
//! - `pipeline`: the frame-processing session, one frame in flight.
//! - `conduit`: the one-place conduit that feeds the session.
//! - `models`: the model files of the trackers and the detector.
//! - `monitor`: the watcher of the source's control channel.
//! - `layout`: pixel layouts and buffer sizes.

pub mod cascade;
pub mod conduit;
pub mod confidence;
pub mod detector;
pub mod geometry;
pub mod layout;
pub mod models;
pub mod monitor;
pub mod pipeline;
pub mod reacquire;
pub mod region;
