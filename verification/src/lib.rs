//! Playback engine core for a local-file audio player.
//!
//! The crate holds the parts of the player that decide rather than perform:
//! the playback timeline with its play / pause / resume / seek / stop rules,
//! the discovery of a track's length from stream metadata or decoded frames,
//! and the playlist navigator with title order, search filtering, shuffle
//! and repeat-one. Decoding, audio output, the equalizer's filter arithmetic
//! and the user interface live with the caller, which feeds the engine plain
//! values: clock readings and lengths in nanoseconds, frame counts, track
//! indices and text.
//!
//! - [`time`]: the nanosecond clock and its fixed thresholds.
//! - [`controller`]: the playback controller and its timeline.
//! - [`probe`]: how long a track is, from its header or its frames.
//! - [`track`], [`scan`], [`ordering`], [`search`], [`shuffle`],
//!   [`navigator`]: the track list and the walk through it.
//! - [`equalizer`]: the bands and channels of the ten-band equalizer.
//! - [`display`]: text for the time display.

pub mod time;
pub mod probe;
pub mod search;
pub mod track;
pub mod scan;
pub mod ordering;
pub mod shuffle;
pub mod navigator;
pub mod controller;
pub mod display;
pub mod equalizer;
