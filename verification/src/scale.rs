//! Musical scales: the mapping from a pitch rank to a semitone offset.

use vstd::prelude::*;

verus! {

/// Number of pitch ranks in every scale table.
pub const SCALE_STEPS: u32 = 16;

/// One of the four fixed scales a track can be played in.
#[derive(Copy, Clone, Debug, PartialEq, Eq, Structural)]
pub enum Scale {
    CMajor,
    CMinor,
    Chromatic,
    Pentatonic,
}

impl Scale {
    /// The semitone offsets of the scale, lowest pitch first.
    pub open spec fn offsets(self) -> Seq<int> {
        match self {
            Scale::CMajor => seq![-9, -7, -5, -4, -2, 0, 2, 3, 5, 7, 8, 10, 12, 14, 15, 17],
            Scale::CMinor => seq![-9, -7, -6, -4, -2, -1, 1, 3, 5, 6, 8, 10, 11, 13, 15, 17],
            Scale::Chromatic => seq![-9, -8, -7, -6, -5, -4, -3, -2, -1, 0, 1, 2, 3, 4, 5, 6],
            Scale::Pentatonic => seq![-9, -7, -5, -2, 0, 3, 5, 7, 10, 12, 15, 17, 19, 22, 24, 27],
        }
    }

    /// The semitone offset of pitch rank `row`: the table entry for a rank
    /// inside the table, and 0 for any rank beyond it.
    pub open spec fn tone_spec(self, row: int) -> int {
        if 0 <= row < self.offsets().len() {
            self.offsets()[row]
        } else {
            0
        }
    }

    /// The name of the scale.
    pub open spec fn name(self) -> Seq<char> {
        match self {
            Scale::CMajor => "C Major"@,
            Scale::CMinor => "C Minor"@,
            Scale::Chromatic => "Chromatic"@,
            Scale::Pentatonic => "Pentatonic"@,
        }
    }

    /// The label of this scale in a list where `other` is the scale in use:
    /// its name, and whether to set it in strong type because it is the one
    /// in use.
    pub fn label_text(self, other: Scale) -> (label: (&'static str, bool))
        ensures
            label.0@ == self.name(),
            label.1 == (other == self),
    {
        let selected: bool = other == self;
        let s: &'static str = match self {
            Scale::CMajor => "C Major",
            Scale::CMinor => "C Minor",
            Scale::Chromatic => "Chromatic",
            Scale::Pentatonic => "Pentatonic",
        };
        (s, selected)
    }

    /// Semitone offset, relative to the reference pitch, of pitch rank `row`.
    pub fn tone(self, row: u32) -> (offset: i32)
        ensures
            offset == self.tone_spec(row as int),
            row >= SCALE_STEPS ==> offset == 0,
    {
        let tones: [i32; 16] = match self {
            Scale::CMajor => [-9, -7, -5, -4, -2, 0, 2, 3, 5, 7, 8, 10, 12, 14, 15, 17],
            Scale::CMinor => [-9, -7, -6, -4, -2, -1, 1, 3, 5, 6, 8, 10, 11, 13, 15, 17],
            Scale::Chromatic => [-9, -8, -7, -6, -5, -4, -3, -2, -1, 0, 1, 2, 3, 4, 5, 6],
            Scale::Pentatonic => [-9, -7, -5, -2, 0, 3, 5, 7, 10, 12, 15, 17, 19, 22, 24, 27],
        };
        let row: usize = row as usize;
        if row >= tones.len() {
            0
        } else {
            tones[row]
        }
    }
}

} // verus!
