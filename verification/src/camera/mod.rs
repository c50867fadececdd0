//! Capture devices: what they offer, the states a camera goes through, and the
//! set of cameras of one machine.
//!
//! The device itself is driven by the caller. The functions here are given what
//! the device answered and decide what follows from it.

pub mod adapter;
pub mod api;
pub mod camera;
pub mod manager;
