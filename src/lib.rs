//! Playback of VGM command streams on an emulated SN76489 sound chip.
//!
//! - `header` and `parser`: the chip configuration and file header of a VGM file.
//! - `vgz`: gzip-compressed VGM files.
//! - `sn76489`: the chip: register writes, ticks, mixing and rate conversion.
//! - `stream`: the command-stream interpreter that drives the chip.
pub mod header;
pub mod parser;
pub mod sn76489;
pub mod stream;
pub mod vgz;
