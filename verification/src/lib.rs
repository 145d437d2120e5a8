//! Decoder for towed-sonar SDF recordings and the ship track derived from them.
//!
//! A recording is a run of pings. Each ping is a marker with a counter, a
//! fixed header of 512 bytes and five arrays of samples. [`decode_stream`]
//! turns the bytes of a recording into its pings; [`Track`] collects the
//! positions of pings into a track in which no point repeats the one before.

pub mod channels;
pub mod error;
pub mod header;
pub mod marker;
pub mod sample;
pub mod track;
pub mod wire;

pub use channels::{take_sys3000_data_channels, System3000DataChannels};
pub use error::{Channel, DecodeError};
pub use header::{DataPageHeader, HEADER_LEN};
pub use marker::take_until_ping_marker;
pub use sample::{decode_stream, take_sys3000_sample, System3000Sample};
pub use track::{Track, TrackPoint};
