//! Notes: what the sequencer hands over for playback at a beat.

use vstd::prelude::*;
use crate::timbre::Timbre;

verus! {

/// The waveform generators a voice can be layered from.
#[derive(Copy, Clone, Debug, PartialEq, Eq, Structural)]
pub enum NoteType {
    Sine,
    Triangle,
    Sawtooth,
    Square,
    Noise,
}

/// One triggered note. It carries its own copy of the track's timbre, so
/// later edits to the track do not reach a note that is already sounding.
#[derive(Copy, Clone, Debug, PartialEq, Eq)]
pub struct Note {
    /// Semitones above (or below) the reference pitch.
    pub tone: i32,
    /// Loudness in millionths of full scale.
    pub volume: u32,
    /// The timbre of the track at the moment the note was triggered.
    pub timbre: Timbre,
}

} // verus!
