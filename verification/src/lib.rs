//! A software synthesizer and sequencer for Organya music files: a soundbank
//! of wavetables and a song of 16 event channels are parsed from bytes, and a
//! per-tick sequencer schedules note-on/note-off commands for the voices of a
//! mixer.

use vstd::prelude::*;

pub mod laws;
pub mod player;
pub mod read_cursor;
pub mod sequencer;
pub mod soundbank;
pub mod song;
pub mod tables;

pub use player::{Melody, Percussion, Player, VoiceCmd};
pub use read_cursor::ReadCursor;
pub use song::{Channel, Event, Song};

verus! {

/// If an event property (pitch, volume, pan) has this value, it is ignored.
pub const PROPERTY_UNUSED: u8 = 0xFF;

/// How the mixer interpolates between adjacent wavetable samples.
#[derive(Clone, Copy, Default)]
pub enum Interpolation {
    /// Take the newest sample as it is.
    #[default]
    Nearest,
    /// Four-point Lagrange interpolation over the sample ring.
    Lagrange,
}

/// Error that can happen when loading Organya data.
#[derive(Debug)]
pub enum OrgError {
    /// Structurally malformed Organya data.
    Malformed,
    /// Input/output error while reading a file.
    Io(std::io::Error),
}

#[verifier::external_type_specification]
#[verifier::external_body]
pub struct ExIoError(std::io::Error);

impl From<std::io::Error> for OrgError {
    fn from(err: std::io::Error) -> Self {
        OrgError::Io(err)
    }
}

impl vstd::std_specs::convert::FromSpecImpl<std::io::Error> for OrgError {
    open spec fn obeys_from_spec() -> bool {
        true
    }

    open spec fn from_spec(err: std::io::Error) -> Self {
        OrgError::Io(err)
    }
}

} // verus!
