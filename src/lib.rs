//! Session state of a weather tracker: an ordered store of per-city weather
//! snapshots, the decisions around refreshing and searching, and the smooth
//! forecast curve drawn from daily temperatures.

pub mod curve;
pub mod display;
pub mod search;
pub mod store;
pub mod utils;
