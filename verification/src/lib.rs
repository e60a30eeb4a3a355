//! Routing attributes of a road network edge, derived from the tags of an
//! OpenStreetMap way.
//!
//! A way carries key/value tags. [`categorize::EdgeProperties`] collects what
//! they say about pedestrians, cars and bicycles, one tag at a time, and is
//! then normalized into a record without gaps: an access class per mode and
//! direction, a speed limit per direction and the directions open to cars.
//!
//! [`text`] holds the character-level helpers and [`speed`] reads the value
//! of a `maxspeed` tag.

pub mod categorize;
pub mod speed;
pub mod text;
