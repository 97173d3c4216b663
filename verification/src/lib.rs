//! Verified core of a sensor-temperature viewer.
//!
//! The library holds the logic that is worth proving: building the request
//! URLs for the sensor service, validating the free-text time range, sorting
//! fetched readings by time (most recent first), projecting readings into
//! plot coordinates and display rows, and the non-blocking bridge that hands
//! a fetch result from a background network callback to a polling redraw
//! loop. The windowing, widgets and actual HTTP traffic live outside the
//! library and only exchange plain values with it.

pub mod fetch;
pub mod measurements;
pub mod numfmt;
pub mod timetext;
pub mod urls;
