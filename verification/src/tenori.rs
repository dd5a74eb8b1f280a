//! The sequencer: the loop clock and the tracks it plays.
//!
//! The clock counts in units of which `BEAT_UNITS` make one beat. One unit is
//! what the loop advances by in one nanosecond at one beat per minute, so
//! `dt` nanoseconds at `tempo` beats per minute advance it by exactly
//! `dt * tempo` units.

use vstd::prelude::*;
use crate::dialog::Dialog;
use crate::grid::Grid;
use crate::noise::Note;

verus! {

/// Beats in the loop, and pitch rows in every track.
pub const LOOP_LENGTH: u32 = 16;

/// Clock units in one beat.
pub const BEAT_UNITS: u64 = 60_000_000_000;

/// Clock units in the whole loop.
pub const LOOP_UNITS: u64 = 960_000_000_000;

/// Where a raw position lands in the loop: the loop length is taken off for
/// as long as the position exceeds it.
pub open spec fn wrap_position(position: int) -> int
    decreases position,
{
    if position > LOOP_UNITS {
        wrap_position(position - LOOP_UNITS)
    } else {
        position
    }
}

/// A wrapped position is within the loop, differs from the raw position by
/// whole loops, and is short of the loop's end unless the raw position is
/// itself a whole, non-zero number of loops.
pub proof fn lemma_position_within_loop(position: int)
    requires
        0 <= position,
    ensures
        0 <= wrap_position(position) <= LOOP_UNITS,
        wrap_position(position) == if position == 0 {
            0
        } else {
            (position - 1) % (LOOP_UNITS as int) + 1
        },
        wrap_position(position) == LOOP_UNITS <==> position > 0 && position % (LOOP_UNITS as int)
            == 0,
    decreases position,
{
    if position > LOOP_UNITS {
        lemma_position_within_loop(position - LOOP_UNITS);
    }
}

/// The state of the sequencer.
pub struct Tenori {
    /// Tempo in beats per minute.
    pub tempo: u32,
    /// Position in the loop, in clock units.
    pub timer: u64,
    /// Whether the loop is running; `false` is paused.
    pub playing: bool,
    /// The time of the latest tick, in nanoseconds.
    pub last_tick: Option<u64>,
    /// The tracks.
    pub grids: Vec<Grid>,
    /// How many windows have been numbered so far.
    pub window_counter: usize,
    /// The messages on show.
    pub dialogs: Vec<Dialog>,
    /// The file to save to without asking, once one has been chosen.
    pub default_filename: Option<String>,
}

impl Default for Tenori {
    /// A sequencer without tracks, playing at 90 beats per minute from the
    /// start of the loop.
    fn default() -> (tenori: Tenori)
        ensures
            tenori.wf(),
            tenori.tempo == 90,
            tenori.timer == 0,
            tenori.playing,
            tenori.last_tick is None,
            tenori.grids@.len() == 0,
            tenori.window_counter == 0,
            tenori.dialogs@.len() == 0,
            tenori.default_filename is None,
    {
        Tenori {
            tempo: 90,
            timer: 0,
            playing: true,
            last_tick: None,
            grids: Vec::new(),
            window_counter: 0,
            dialogs: Vec::new(),
            default_filename: None,
        }
    }
}

impl Tenori {
    /// The position is within the loop and every track is well formed.
    pub open spec fn wf(&self) -> bool {
        &&& self.timer <= LOOP_UNITS
        &&& forall|i: int| 0 <= i < self.grids@.len() ==> (#[trigger] self.grids@[i]).wf()
    }

    /// Nanoseconds from the latest tick to `now`; none before the first
    /// tick, and none if `now` is not later.
    pub open spec fn since_last(&self, now: u64) -> int {
        match self.last_tick {
            Some(last) if now >= last => now - last,
            _ => 0,
        }
    }

    /// The position after a tick at `now`: while playing, the old position
    /// advanced by the elapsed time at the current tempo and wrapped into the
    /// loop; while paused, and at the first tick, the old position.
    pub open spec fn timer_after(&self, now: u64) -> int {
        if self.playing && self.last_tick is Some {
            wrap_position(self.timer + self.since_last(now) * self.tempo)
        } else {
            self.timer as int
        }
    }

    /// The sequencer after a tick at `now`: the position has moved on and
    /// `now` is the time of the latest tick; nothing else has changed.
    pub open spec fn ticked(self, now: u64) -> Tenori {
        Tenori { timer: self.timer_after(now) as u64, last_tick: Some(now), ..self }
    }

    /// The beat the position is in.
    pub open spec fn beat_spec(&self) -> int {
        self.timer as int / BEAT_UNITS as int
    }

    /// Whether the position is within the loop and every track is well formed.
    pub fn is_well_formed(&self) -> (ok: bool)
        ensures
            ok == self.wf(),
    {
        if self.timer > LOOP_UNITS {
            return false;
        }
        let mut i: usize = 0;
        while i < self.grids.len()
            invariant
                i <= self.grids@.len(),
                forall|k: int| 0 <= k < i ==> (#[trigger] self.grids@[k]).wf(),
            decreases self.grids@.len() - i,
        {
            if !self.grids[i].is_well_formed() {
                return false;
            }
            i = i + 1;
        }
        true
    }

    /// Advances the clock to `now`, a time in nanoseconds on any monotonic
    /// scale, and says whether that took the loop into another beat.
    pub fn tick(&mut self, now: u64) -> (entered: bool)
        requires
            old(self).wf(),
        ensures
            *final(self) == old(self).ticked(now),
            final(self).timer == old(self).timer_after(now),
            final(self).wf(),
            entered == (final(self).beat_spec() != old(self).beat_spec()),
    {
        let old_beat: u32 = self.beat();
        if self.playing {
            if let Some(last) = self.last_tick {
                let dt: u64 = if now >= last {
                    now - last
                } else {
                    0
                };
                assert(dt * self.tempo <= 0xffff_ffff_ffff_ffff * 0xffff_ffff) by (nonlinear_arith)
                    requires
                        0 <= dt <= 0xffff_ffff_ffff_ffff,
                        0 <= self.tempo <= 0xffff_ffff,
                ;
                let mut position: u128 = self.timer as u128 + (dt as u128) * (self.tempo as u128);
                let ghost raw: int = position as int;
                while position > LOOP_UNITS as u128
                    invariant
                        wrap_position(position as int) == wrap_position(raw),
                    decreases position,
                {
                    position = position - LOOP_UNITS as u128;
                }
                proof {
                    lemma_position_within_loop(raw);
                }
                self.timer = position as u64;
            }
        }
        self.last_tick = Some(now);
        self.beat() != old_beat
    }

    /// A tick keeps the position within the loop, and short of the loop's
    /// end unless the time that has passed takes it to the exact end of a loop.
    pub proof fn lemma_tick_stays_in_loop(self, now: u64)
        requires
            self.timer <= LOOP_UNITS,
        ensures
            0 <= self.timer_after(now) <= LOOP_UNITS,
            self.timer < LOOP_UNITS && (self.timer + self.since_last(now) * self.tempo) % (
            LOOP_UNITS as int) != 0 ==> self.timer_after(now) < LOOP_UNITS,
    {
        assert(0 <= self.since_last(now) * self.tempo) by (nonlinear_arith)
            requires
                0 <= self.since_last(now),
                0 <= self.tempo,
        ;
        lemma_position_within_loop(self.timer + self.since_last(now) * self.tempo);
    }

    /// While the sequencer is paused the position does not move, however
    /// much time passes between ticks.
    pub proof fn lemma_pause_freezes_position(self, now: u64)
        requires
            !self.playing,
        ensures
            self.ticked(now).timer == self.timer,
            self.ticked(now).last_tick == Some(now),
    {
    }

    /// The length of a pause leaves no trace. After a tick at `now` while
    /// paused, a resumed sequencer moves on from where it stood by the time
    /// that has passed since `now` alone: by nothing at `now` itself.
    pub proof fn lemma_resume_absorbs_pause(self, now: u64, later: u64)
        requires
            self.timer <= LOOP_UNITS,
            !self.playing,
            now <= later,
        ensures
            (Tenori { playing: true, ..self.ticked(now) }).ticked(later).timer == wrap_position(
                self.timer + (later - now) * self.tempo,
            ),
            (Tenori { playing: true, ..self.ticked(now) }).ticked(now).timer == self.timer,
    {
        assert(0 <= (later - now) * self.tempo) by (nonlinear_arith)
            requires
                0 <= later - now,
                0 <= self.tempo,
        ;
        lemma_position_within_loop(self.timer + (later - now) * self.tempo);
        assert((now - now) * self.tempo == 0);
    }

    /// Which beat of the loop the clock is in.
    pub fn beat(&self) -> (beat: u32)
        ensures
            beat == self.beat_spec(),
    {
        (self.timer / BEAT_UNITS) as u32
    }

    /// How far through the loop the clock is, as the fraction
    /// `ratio.0 / ratio.1`.
    pub fn ratio(&self) -> (ratio: (u64, u64))
        ensures
            ratio.0 == self.timer,
            ratio.1 == LOOP_UNITS,
    {
        (self.timer, LOOP_UNITS)
    }

    /// The notes one track triggers at `beat`: its active tones, each at the
    /// track's volume and with the track's timbre.
    pub open spec fn notes_of(beat: int) -> spec_fn(Grid) -> Seq<Note> {
        |grid: Grid|
            grid.active_tones(beat).map_values(
                |tone: i32| Note { tone, volume: grid.volume, timbre: grid.timbre },
            )
    }

    /// The notes all tracks trigger at the current beat, track by track.
    pub fn notes_for_beat(&self) -> (notes: Vec<Note>)
        requires
            self.wf(),
            self.grids@.len() == 0 || self.beat_spec() < LOOP_LENGTH,
        ensures
            notes@ == self.grids@.flat_map(Self::notes_of(self.beat_spec())),
    {
        let mut notes: Vec<Note> = Vec::new();
        let beat: u32 = self.beat();
        let mut i: usize = 0;
        assert(self.grids@.take(0).flat_map(Self::notes_of(beat as int)) =~= Seq::<Note>::empty());
        while i < self.grids.len()
            invariant
                self.wf(),
                self.grids@.len() == 0 || beat < LOOP_LENGTH,
                beat == self.beat_spec(),
                i <= self.grids@.len(),
                notes@ == self.grids@.take(i as int).flat_map(Self::notes_of(beat as int)),
            decreases self.grids@.len() - i,
        {
            let grid: &Grid = &self.grids[i];
            let tones: Vec<i32> = grid.notes(beat);
            let ghost before: Seq<Note> = notes@;
            let ghost to_note = |tone: i32| Note { tone, volume: grid.volume, timbre: grid.timbre };
            let mut j: usize = 0;
            while j < tones.len()
                invariant
                    j <= tones@.len(),
                    forall|tone: i32| #[trigger]
                        to_note(tone) == (Note { tone, volume: grid.volume, timbre: grid.timbre }),
                    notes@ == before + tones@.take(j as int).map_values(to_note),
                decreases tones@.len() - j,
            {
                notes.push(Note { tone: tones[j], volume: grid.volume, timbre: grid.timbre });
                proof {
                    let done = tones@.take(j as int);
                    assert(tones@.take(j + 1) =~= done.push(tones@[j as int]));
                    done.lemma_push_map_commute(to_note, tones@[j as int]);
                    assert(notes@ =~= before + done.map_values(to_note).push(
                        to_note(tones@[j as int]),
                    ));
                }
                j = j + 1;
            }
            proof {
                assert(tones@.take(j as int) =~= tones@);
                self.grids@.lemma_flat_map_take_append(Self::notes_of(beat as int), i as int);
            }
            i = i + 1;
        }
        assert(self.grids@.take(i as int) =~= self.grids@);
        notes
    }

    /// The test "the message is still to be shown".
    pub open spec fn shown() -> spec_fn(Dialog) -> bool {
        |dialog: Dialog| dialog.1
    }

    /// The test "the track's window is open".
    pub open spec fn opened() -> spec_fn(Grid) -> bool {
        |grid: Grid| grid.open
    }

    /// Drops the messages the user has dismissed; the others stay, in order.
    pub fn drop_dismissed_dialogs(&mut self)
        ensures
            final(self).dialogs@ == old(self).dialogs@.filter(Self::shown()),
            final(self).tempo == old(self).tempo,
            final(self).timer == old(self).timer,
            final(self).playing == old(self).playing,
            final(self).last_tick == old(self).last_tick,
            final(self).grids == old(self).grids,
            final(self).window_counter == old(self).window_counter,
            final(self).default_filename == old(self).default_filename,
    {
        let ghost all: Seq<Dialog> = self.dialogs@;
        let mut dialogs: Vec<Dialog> = Vec::new();
        std::mem::swap(&mut self.dialogs, &mut dialogs);
        let mut kept: Vec<Dialog> = Vec::new();
        assert(all.take(0).filter(Self::shown()) =~= Seq::<Dialog>::empty());
        for dialog in rest: dialogs
            invariant
                rest.seq() == all,
                kept@ == all.take(rest.index()).filter(Self::shown()),
        {
            proof {
                let i = rest.index();
                assert(all.take(i + 1) =~= all.take(i).push(dialog));
                all.take(i).lemma_filter_push(dialog, Self::shown());
            }
            if dialog.1 {
                kept.push(dialog);
            }
        }
        assert(all.take(all.len() as int) =~= all);
        self.dialogs = kept;
    }

    /// Removes the tracks whose window the user has closed; the others stay,
    /// in order.
    pub fn drop_closed_grids(&mut self)
        requires
            old(self).wf(),
        ensures
            final(self).wf(),
            final(self).grids@ == old(self).grids@.filter(Self::opened()),
            final(self).tempo == old(self).tempo,
            final(self).timer == old(self).timer,
            final(self).playing == old(self).playing,
            final(self).last_tick == old(self).last_tick,
            final(self).dialogs == old(self).dialogs,
            final(self).window_counter == old(self).window_counter,
            final(self).default_filename == old(self).default_filename,
    {
        let ghost all: Seq<Grid> = self.grids@;
        let mut grids: Vec<Grid> = Vec::new();
        std::mem::swap(&mut self.grids, &mut grids);
        let mut kept: Vec<Grid> = Vec::new();
        assert(all.take(0).filter(Self::opened()) =~= Seq::<Grid>::empty());
        for grid in rest: grids
            invariant
                rest.seq() == all,
                forall|i: int| 0 <= i < all.len() ==> (#[trigger] all[i]).wf(),
                kept@ == all.take(rest.index()).filter(Self::opened()),
                forall|i: int| 0 <= i < kept@.len() ==> (#[trigger] kept@[i]).wf(),
        {
            proof {
                let i = rest.index();
                assert(all.take(i + 1) =~= all.take(i).push(grid));
                all.take(i).lemma_filter_push(grid, Self::opened());
                assert(grid == all[i]);
            }
            if grid.open {
                kept.push(grid);
            }
        }
        assert(all.take(all.len() as int) =~= all);
        self.grids = kept;
    }

    /// Numbers a new window: every call gives the next number.
    pub fn window_id(&mut self) -> (id: usize)
        requires
            old(self).window_counter < usize::MAX,
        ensures
            id == old(self).window_counter + 1,
            final(self).window_counter == id,
            final(self).tempo == old(self).tempo,
            final(self).timer == old(self).timer,
            final(self).playing == old(self).playing,
            final(self).last_tick == old(self).last_tick,
            final(self).grids == old(self).grids,
            final(self).dialogs == old(self).dialogs,
            final(self).default_filename == old(self).default_filename,
    {
        self.window_counter = self.window_counter + 1;
        self.window_counter
    }
}

} // verus!
