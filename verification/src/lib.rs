//! Decisions of the Qualcomm PD monitor: when a charger is left to Xiaomi's own
//! authentication and when public PPS is enabled in its place.

#![allow(unused_imports)]

pub mod clock;
pub mod laws;
pub mod monitor;
pub mod phase;
pub mod readings;
pub mod report;
pub mod rules;
pub mod session;
pub mod text;
pub mod tracker;
pub mod uevent;
pub mod wait;
