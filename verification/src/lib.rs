//! Orbit controls for a camera: the decisions behind dragging, panning and
//! zooming.
//!
//! A camera circles a pivot. Each frame the pointer may have moved, the wheel
//! may have turned, and some buttons are held. This crate decides, for one
//! camera and one frame, which of the three movements take place and in what
//! order; the host applies them to the camera's transform.

pub mod button;
pub mod controls;
pub mod frame;
pub mod input;
pub mod scroll;
