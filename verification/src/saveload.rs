//! The saved form of a song, and the way into it and back.
//!
//! A track's step grid is saved as text, one character per cell in storage
//! order: `'1'` for a cell that is switched on, `'0'` for one that is off.

use vstd::prelude::*;
use vstd::std_specs::convert::FromSpecImpl;
use vstd::string::StringExecFns;
use crate::grid::{Grid, Rgb};
use crate::scale::Scale;
use crate::tenori::{Tenori, LOOP_LENGTH};
use crate::timbre::Timbre;

verus! {

/// The text a step grid is saved as.
pub open spec fn encode_notes(notes: Seq<bool>) -> Seq<char> {
    notes.map_values(
        |lit: bool|
            if lit {
                '1'
            } else {
                '0'
            },
    )
}

/// The step grid a text stands for: `'1'` is on, anything else is off.
pub open spec fn decode_notes(text: Seq<char>) -> Seq<bool> {
    text.map_values(|c: char| c == '1')
}

/// Reading back the text a step grid was saved as gives the same grid.
pub proof fn lemma_notes_round_trip(notes: Seq<bool>)
    ensures
        decode_notes(encode_notes(notes)) == notes,
{
    assert(decode_notes(encode_notes(notes)) =~= notes);
}

/// Saving a track and loading it again gives back its step grid, scale,
/// volume, timbre, name and colour.
pub proof fn lemma_track_round_trip(grid: Grid, saved: PersistedGrid, loaded: Grid, id: usize)
    requires
        saved.persists(&grid),
        saved.restored_as(&loaded, id),
    ensures
        loaded.notes@ == grid.notes@,
        loaded.scale == grid.scale,
        loaded.volume == grid.volume,
        loaded.timbre == grid.timbre,
        loaded.name@ == grid.name@,
        loaded.color == grid.color,
        saved.wf() <==> grid.wf(),
{
    lemma_notes_round_trip(grid.notes@);
}

/// A song as it is saved.
pub struct PersistedTenori {
    pub tempo: u32,
    pub grids: Vec<PersistedGrid>,
}

/// A track as it is saved.
pub struct PersistedGrid {
    pub volume: u32,
    pub scale: Scale,
    pub notes: String,
    pub name: String,
    pub timbre: Timbre,
    pub color: Rgb,
}

impl PersistedGrid {
    /// The saved grid has one character for each of the sixteen by sixteen cells.
    pub open spec fn wf(&self) -> bool {
        self.notes@.len() == LOOP_LENGTH * LOOP_LENGTH
    }

    /// `self` is the saved form of `grid`.
    pub open spec fn persists(&self, grid: &Grid) -> bool {
        &&& self.volume == grid.volume
        &&& self.scale == grid.scale
        &&& self.notes@ == encode_notes(grid.notes@)
        &&& self.name@ == grid.name@
        &&& self.timbre == grid.timbre
        &&& self.color == grid.color
    }

    /// `grid` is what loading `self` into window `id` gives: the saved
    /// track, shown, with its timbre editor closed.
    pub open spec fn restored_as(&self, grid: &Grid, id: usize) -> bool {
        &&& grid.volume == self.volume
        &&& grid.scale == self.scale
        &&& grid.notes@ == decode_notes(self.notes@)
        &&& grid.name@ == self.name@
        &&& grid.timbre == self.timbre
        &&& grid.color == self.color
        &&& grid.id == id
        &&& grid.open
        &&& !grid.timbre_open
    }

    /// Whether the saved grid has the right number of cells.
    pub fn is_well_formed(&self) -> (ok: bool)
        ensures
            ok == self.wf(),
    {
        self.notes.as_str().unicode_len() == (LOOP_LENGTH * LOOP_LENGTH) as usize
    }

    /// Loads the track into window `id`.
    pub fn into_grid(self, id: usize) -> (grid: Grid)
        requires
            self.wf(),
        ensures
            self.restored_as(&grid, id),
            grid.wf(),
    {
        let mut notes: Vec<bool> = Vec::new();
        let text: &str = self.notes.as_str();
        for c in cells: text.chars()
            invariant
                cells.seq() == text@,
                notes@ == decode_notes(text@.take(cells.index())),
        {
            notes.push(c == '1');
            proof {
                let i = cells.index();
                assert(text@.take(i + 1) =~= text@.take(i).push(c));
                assert(notes@ =~= decode_notes(text@.take(i + 1)));
            }
        }
        assert(text@.take(text@.len() as int) =~= text@);
        Grid {
            volume: self.volume,
            scale: self.scale,
            name: self.name,
            timbre: self.timbre,
            open: true,
            timbre_open: false,
            color: self.color,
            notes,
            id,
        }
    }
}

impl<'a> From<&'a Grid> for PersistedGrid {
    /// The saved form of a track.
    fn from(value: &'a Grid) -> (saved: PersistedGrid)
        ensures
            saved.persists(value),
    {
        let mut notes: String = String::new();
        let mut i: usize = 0;
        while i < value.notes.len()
            invariant
                i <= value.notes@.len(),
                notes@ == encode_notes(value.notes@.take(i as int)),
            decreases value.notes@.len() - i,
        {
            proof {
                reveal_strlit("1");
                reveal_strlit("0");
            }
            if value.notes[i] {
                notes.append("1");
            } else {
                notes.append("0");
            }
            proof {
                assert(value.notes@.take(i + 1) =~= value.notes@.take(i as int).push(
                    value.notes@[i as int],
                ));
                assert(notes@ =~= encode_notes(value.notes@.take(i + 1)));
            }
            i = i + 1;
        }
        assert(value.notes@.take(i as int) =~= value.notes@);
        PersistedGrid {
            volume: value.volume,
            scale: value.scale,
            name: value.name.clone(),
            timbre: value.timbre,
            color: value.color,
            notes,
        }
    }
}

/// No spec function can build the saved text, so this states nothing: what
/// `from` returns is stated on `from` itself.
impl<'a> FromSpecImpl<&'a Grid> for PersistedGrid {
    open spec fn obeys_from_spec() -> bool {
        false
    }

    open spec fn from_spec(value: &'a Grid) -> PersistedGrid {
        arbitrary()
    }
}

impl PersistedTenori {
    /// Every saved track is well formed.
    pub open spec fn wf(&self) -> bool {
        forall|i: int| 0 <= i < self.grids@.len() ==> (#[trigger] self.grids@[i]).wf()
    }

    /// `self` is the saved form of `tenori`: its tempo and its tracks, in order.
    pub open spec fn persists(&self, tenori: &Tenori) -> bool {
        &&& self.tempo == tenori.tempo
        &&& self.grids@.len() == tenori.grids@.len()
        &&& forall|i: int|
            0 <= i < self.grids@.len() ==> (#[trigger] self.grids@[i]).persists(&tenori.grids@[i])
    }

    /// Whether every saved track has the right number of cells.
    pub fn is_well_formed(&self) -> (ok: bool)
        ensures
            ok == self.wf(),
    {
        let mut i: usize = 0;
        while i < self.grids.len()
            invariant
                i <= self.grids@.len(),
                forall|k: int| 0 <= k < i ==> (#[trigger] self.grids@[k]).wf(),
            decreases self.grids@.len() - i,
        {
            if !self.grids[i].is_well_formed() {
                return false;
            }
            i = i + 1;
        }
        true
    }

    /// Loads the song into `tenori`: the saved tracks replace the tracks
    /// there, each in a newly numbered window, the tempo is the saved one, and
    /// the clock is paused at the start of the loop.
    pub fn apply_to(self, tenori: &mut Tenori)
        requires
            self.wf(),
            old(tenori).window_counter + self.grids@.len() <= usize::MAX,
        ensures
            final(tenori).wf(),
            final(tenori).tempo == self.tempo,
            !final(tenori).playing,
            final(tenori).timer == 0,
            final(tenori).grids@.len() == self.grids@.len(),
            forall|i: int|
                0 <= i < self.grids@.len() ==> (#[trigger] self.grids@[i]).restored_as(
                    &final(tenori).grids@[i],
                    (old(tenori).window_counter + i + 1) as usize,
                ),
            final(tenori).window_counter == old(tenori).window_counter + self.grids@.len(),
            final(tenori).last_tick == old(tenori).last_tick,
            final(tenori).dialogs == old(tenori).dialogs,
            final(tenori).default_filename == old(tenori).default_filename,
    {
        let ghost saved: Seq<PersistedGrid> = self.grids@;
        let ghost first: int = tenori.window_counter as int;
        let mut grids: Vec<Grid> = Vec::new();
        for grid in tracks: self.grids
            invariant
                tracks.seq() == saved,
                first + saved.len() <= usize::MAX,
                forall|i: int| 0 <= i < saved.len() ==> (#[trigger] saved[i]).wf(),
                grids@.len() == tracks.index(),
                tenori.window_counter == first + tracks.index(),
                forall|i: int|
                    0 <= i < grids@.len() ==> (#[trigger] saved[i]).restored_as(
                        &grids@[i],
                        (first + i + 1) as usize,
                    ),
                forall|i: int| 0 <= i < grids@.len() ==> (#[trigger] grids@[i]).wf(),
                tenori.tempo == old(tenori).tempo,
                tenori.timer == old(tenori).timer,
                tenori.playing == old(tenori).playing,
                tenori.last_tick == old(tenori).last_tick,
                tenori.dialogs == old(tenori).dialogs,
                tenori.default_filename == old(tenori).default_filename,
        {
            let id: usize = tenori.window_id();
            grids.push(grid.into_grid(id));
        }
        tenori.grids = grids;
        tenori.tempo = self.tempo;
        tenori.playing = false;
        tenori.timer = 0;
    }
}

impl<'a> From<&'a Tenori> for PersistedTenori {
    /// The saved form of a song.
    fn from(value: &'a Tenori) -> (saved: PersistedTenori)
        ensures
            saved.persists(value),
    {
        let mut grids: Vec<PersistedGrid> = Vec::new();
        let mut i: usize = 0;
        while i < value.grids.len()
            invariant
                i <= value.grids@.len(),
                grids@.len() == i,
                forall|k: int| 0 <= k < i ==> (#[trigger] grids@[k]).persists(&value.grids@[k]),
            decreases value.grids@.len() - i,
        {
            grids.push(PersistedGrid::from(&value.grids[i]));
            i = i + 1;
        }
        PersistedTenori { tempo: value.tempo, grids }
    }
}

/// No spec function can build the saved text, so this states nothing: what
/// `from` returns is stated on `from` itself.
impl<'a> FromSpecImpl<&'a Tenori> for PersistedTenori {
    open spec fn obeys_from_spec() -> bool {
        false
    }

    open spec fn from_spec(value: &'a Tenori) -> PersistedTenori {
        arbitrary()
    }
}

} // verus!
