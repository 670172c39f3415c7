//! Client side of the MAVLink file-transfer sub-protocol: the payload codec
//! and the controller that drives one operation at a time.

pub mod controller;
pub mod crc32;
pub mod listing;
pub mod mavftp;
pub mod text;
pub mod wire;
