//! Tracks: a sixteen by sixteen step grid with its scale, volume and timbre.

use vstd::prelude::*;
use tinyrand::{Rand, StdRand};
use crate::scale::Scale;
use crate::tenori::LOOP_LENGTH;
use crate::timbre::Timbre;
use crate::units::UNITY;

verus! {

/// Number of hues a track colour is drawn from.
pub const HUE_COUNT: u32 = 72;

/// Degrees between two neighbouring hues.
pub const HUE_STEP: u32 = 5;

/// The generator behind `tinyrand::StdRand`. Its state is never inspected.
#[verifier::external_type_specification]
#[verifier::external_body]
pub struct ExWyrand(tinyrand::Wyrand);

/// `tinyrand::Rand::next_lim_u32`: draws the generator's next number below
/// `lim`. The draw is only known to be in range; a zero limit makes the
/// generator panic and is left out.
#[verifier::external_body]
fn next_below(rand: &mut StdRand, lim: u32) -> (draw: u32)
    requires
        lim != 0,
    ensures
        draw < lim,
{
    rand.next_lim_u32(lim)
}

/// An opaque colour by its red, green and blue parts.
#[derive(Copy, Clone, Debug, PartialEq, Eq, Structural)]
pub struct Rgb {
    pub r: u8,
    pub g: u8,
    pub b: u8,
}

/// One track of the sequencer. Cell `(row, beat)` of the step grid is stored
/// at index `row * 16 + beat`; row 0 is the top row and the highest pitch.
#[derive(Clone, Debug)]
pub struct Grid {
    /// Loudness in millionths of full scale.
    pub volume: u32,
    pub scale: Scale,
    pub notes: Vec<bool>,
    /// Number of the window the track is shown in.
    pub id: usize,
    pub name: String,
    pub open: bool,
    pub timbre: Timbre,
    pub timbre_open: bool,
    /// The colour the track is drawn in.
    pub color: Rgb,
}

impl Grid {
    /// The step grid has exactly sixteen rows of sixteen beats.
    pub open spec fn wf(&self) -> bool {
        self.notes@.len() == LOOP_LENGTH * LOOP_LENGTH
    }

    /// Whether the cell at `row` and `beat` is switched on.
    pub open spec fn lit(&self, row: int, beat: int) -> bool {
        self.notes@[row * LOOP_LENGTH + beat]
    }

    /// The test "row `row` is switched on at `beat`".
    pub open spec fn lit_at(&self, beat: int) -> spec_fn(int) -> bool {
        |row: int| self.lit(row, beat)
    }

    /// The tone a row sounds: the top row is the scale's highest pitch rank.
    pub open spec fn tone_of(&self) -> spec_fn(int) -> i32 {
        |row: int| self.scale.tone_spec(LOOP_LENGTH - 1 - row) as i32
    }

    /// The tones of the cells switched on at `beat` among the first `rows`
    /// rows, from the top row down.
    pub open spec fn tones_within(&self, beat: int, rows: int) -> Seq<i32> {
        Seq::new(rows as nat, |row: int| row).filter(self.lit_at(beat)).map_values(self.tone_of())
    }

    /// The tones to trigger at `beat`, from the top row down.
    pub open spec fn active_tones(&self, beat: int) -> Seq<i32> {
        self.tones_within(beat, LOOP_LENGTH as int)
    }

    /// Whether the step grid has its sixteen rows of sixteen beats.
    pub fn is_well_formed(&self) -> (ok: bool)
        ensures
            ok == self.wf(),
    {
        self.notes.len() == (LOOP_LENGTH * LOOP_LENGTH) as usize
    }

    /// The hue, in degrees, that stands for a draw: draws below `HUE_COUNT`
    /// give the 72 multiples of five degrees on the colour wheel.
    pub fn hue_of_draw(draw: u32) -> (hue: u32)
        requires
            draw * HUE_STEP <= u32::MAX,
        ensures
            hue == draw * HUE_STEP,
            draw < HUE_COUNT ==> hue < 360,
    {
        draw * HUE_STEP
    }

    /// Draws the hue of a track colour: one of the 72 multiples of five
    /// degrees on the colour wheel.
    pub fn random_hue(rand: &mut StdRand) -> (hue: u32)
        ensures
            hue < 360,
            hue % HUE_STEP == 0,
    {
        let draw: u32 = next_below(rand, HUE_COUNT);
        Self::hue_of_draw(draw)
    }

    /// A new, empty track in C major at full volume, shown in window `id`.
    pub fn new(id: usize, color: Rgb) -> (grid: Grid)
        ensures
            grid.wf(),
            forall|i: int| 0 <= i < grid.notes@.len() ==> !grid.notes@[i],
            grid.volume == UNITY,
            grid.scale == Scale::CMajor,
            grid.id == id,
            grid.name@ == "New Track"@,
            grid.open,
            grid.timbre == Timbre::default_spec(),
            !grid.timbre_open,
            grid.color == color,
    {
        Grid {
            volume: UNITY,
            open: true,
            scale: Scale::CMajor,
            notes: vec![false; (LOOP_LENGTH * LOOP_LENGTH) as usize],
            name: "New Track".to_owned(),
            timbre: Timbre::default(),
            timbre_open: false,
            color,
            id,
        }
    }

    /// The semitone offsets to trigger at `beat`: one for every cell of that
    /// column that is switched on, from the top row down.
    pub fn notes(&self, beat: u32) -> (tones: Vec<i32>)
        requires
            self.wf(),
            beat < LOOP_LENGTH,
        ensures
            tones@ == self.active_tones(beat as int),
    {
        let mut tones: Vec<i32> = Vec::new();
        let mut y: u32 = 0;
        assert(Seq::new(0, |row: int| row).filter(self.lit_at(beat as int)) =~= Seq::<int>::empty());
        while y < LOOP_LENGTH
            invariant
                self.wf(),
                beat < LOOP_LENGTH,
                y <= LOOP_LENGTH,
                tones@ == self.tones_within(beat as int, y as int),
            decreases LOOP_LENGTH - y,
        {
            proof {
                let rows = Seq::new(y as nat, |row: int| row);
                assert(Seq::new((y + 1) as nat, |row: int| row) =~= rows.push(y as int));
                rows.lemma_filter_push(y as int, self.lit_at(beat as int));
                rows.filter(self.lit_at(beat as int)).lemma_push_map_commute(
                    self.tone_of(),
                    y as int,
                );
            }
            if self.notes[(y * LOOP_LENGTH + beat) as usize] {
                let row: u32 = LOOP_LENGTH - y - 1;
                tones.push(self.scale.tone(row));
            }
            y = y + 1;
        }
        tones
    }

    /// Flips the cell at `row` and `beat`.
    pub fn toggle(&mut self, row: u32, beat: u32)
        requires
            old(self).wf(),
            row < LOOP_LENGTH,
            beat < LOOP_LENGTH,
        ensures
            final(self).notes@ == old(self).notes@.update(
                row * LOOP_LENGTH + beat,
                !old(self).lit(row as int, beat as int),
            ),
            final(self).wf(),
            final(self).volume == old(self).volume,
            final(self).scale == old(self).scale,
            final(self).id == old(self).id,
            final(self).name == old(self).name,
            final(self).open == old(self).open,
            final(self).timbre == old(self).timbre,
            final(self).timbre_open == old(self).timbre_open,
            final(self).color == old(self).color,
    {
        let n: usize = (row * LOOP_LENGTH + beat) as usize;
        let lit: bool = self.notes[n];
        self.notes.set(n, !lit);
    }

    /// Switches every cell off.
    pub fn clear(&mut self)
        ensures
            final(self).wf(),
            forall|i: int| 0 <= i < final(self).notes@.len() ==> !final(self).notes@[i],
            final(self).volume == old(self).volume,
            final(self).scale == old(self).scale,
            final(self).id == old(self).id,
            final(self).name == old(self).name,
            final(self).open == old(self).open,
            final(self).timbre == old(self).timbre,
            final(self).timbre_open == old(self).timbre_open,
            final(self).color == old(self).color,
    {
        self.notes = vec![false; (LOOP_LENGTH * LOOP_LENGTH) as usize];
    }
}

} // verus!
