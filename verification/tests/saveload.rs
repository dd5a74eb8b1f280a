use tenori_ish::grid::{Grid, Rgb};
use tenori_ish::saveload::{PersistedGrid, PersistedTenori};
use tenori_ish::scale::Scale;
use tenori_ish::tenori::Tenori;
use tenori_ish::timbre::Timbre;

const TEAL: Rgb = Rgb { r: 0, g: 128, b: 128 };

fn busy_track() -> Grid {
    let mut grid = Grid::new(9, TEAL);
    grid.volume = 1_250_000;
    grid.scale = Scale::Chromatic;
    grid.name = "Bass".to_string();
    grid.timbre.sawtooth = 600_000;
    grid.timbre.envelope.release = 250_000;
    grid.timbre_open = true;
    grid.toggle(0, 0);
    grid.toggle(0, 15);
    grid.toggle(7, 3);
    grid.toggle(15, 15);
    grid
}

#[test]
fn a_grid_is_saved_as_zeros_and_ones_row_by_row() {
    let saved = PersistedGrid::from(&busy_track());
    let mut expected = vec!['0'; 256];
    expected[0] = '1';
    expected[15] = '1';
    expected[7 * 16 + 3] = '1';
    expected[255] = '1';
    assert_eq!(saved.notes, expected.into_iter().collect::<String>());
    assert_eq!(saved.volume, 1_250_000);
    assert_eq!(saved.scale, Scale::Chromatic);
    assert_eq!(saved.name, "Bass");
    assert_eq!(saved.timbre, busy_track().timbre);
    assert_eq!(saved.color, TEAL);
    assert!(saved.is_well_formed());
}

#[test]
fn saving_and_loading_a_track_gives_it_back() {
    let grid = busy_track();
    let loaded = PersistedGrid::from(&grid).into_grid(21);
    assert_eq!(loaded.notes, grid.notes);
    assert_eq!(loaded.scale, grid.scale);
    assert_eq!(loaded.volume, grid.volume);
    assert_eq!(loaded.timbre, grid.timbre);
    assert_eq!(loaded.name, grid.name);
    assert_eq!(loaded.color, grid.color);
    assert_eq!(loaded.id, 21);
    assert!(loaded.open);
    assert!(!loaded.timbre_open);
    for beat in 0..16 {
        assert_eq!(loaded.notes(beat), grid.notes(beat));
    }
}

#[test]
fn only_a_one_switches_a_cell_on() {
    let mut text = "10x1 ".to_string();
    text.extend(std::iter::repeat('0').take(251));
    let saved = PersistedGrid {
        volume: 0,
        scale: Scale::CMajor,
        notes: text,
        name: String::new(),
        timbre: Timbre::default(),
        color: TEAL,
    };
    assert!(saved.is_well_formed());
    let grid = saved.into_grid(1);
    let mut expected = vec![false; 256];
    expected[0] = true;
    expected[3] = true;
    assert_eq!(grid.notes, expected);
}

#[test]
fn a_grid_of_the_wrong_size_is_not_well_formed() {
    let with_notes = |notes: String| PersistedGrid {
        volume: 1_000_000,
        scale: Scale::CMajor,
        notes,
        name: "x".to_string(),
        timbre: Timbre::default(),
        color: TEAL,
    };
    assert!(!with_notes(String::new()).is_well_formed());
    assert!(!with_notes("0".repeat(255)).is_well_formed());
    assert!(!with_notes("0".repeat(257)).is_well_formed());
    assert!(with_notes("0".repeat(256)).is_well_formed());
    // cells are counted in characters, not in bytes
    assert!(with_notes("é".repeat(256)).is_well_formed());
    assert!(!with_notes("é".repeat(128)).is_well_formed());

    let song = PersistedTenori { tempo: 100, grids: vec![with_notes("1".repeat(256)), with_notes("1".repeat(3))] };
    assert!(!song.is_well_formed());
    let song = PersistedTenori { tempo: 100, grids: vec![with_notes("1".repeat(256))] };
    assert!(song.is_well_formed());
    assert!(PersistedTenori { tempo: 1, grids: vec![] }.is_well_formed());
}

#[test]
fn a_song_is_saved_with_its_tempo_and_tracks_in_order() {
    let mut t = Tenori::default();
    t.tempo = 133;
    t.grids.push(busy_track());
    t.grids.push(Grid::new(2, TEAL));
    let saved = PersistedTenori::from(&t);
    assert_eq!(saved.tempo, 133);
    assert_eq!(saved.grids.len(), 2);
    assert_eq!(saved.grids[0].name, "Bass");
    assert_eq!(saved.grids[1].name, "New Track");
    assert_eq!(saved.grids[1].notes, "0".repeat(256));
}

#[test]
fn loading_a_song_replaces_the_tracks_and_pauses_at_the_start() {
    let mut source = Tenori::default();
    source.tempo = 133;
    source.grids.push(busy_track());
    source.grids.push(Grid::new(2, TEAL));
    let saved = PersistedTenori::from(&source);
    assert!(saved.is_well_formed());

    let mut t = Tenori::default();
    t.grids.push(Grid::new(1, TEAL));
    t.window_id();
    t.window_id();
    t.tick(0);
    t.tick(1_000_000_000);
    assert!(t.timer > 0);
    saved.apply_to(&mut t);

    assert_eq!(t.tempo, 133);
    assert!(!t.playing);
    assert_eq!(t.timer, 0);
    assert_eq!(t.last_tick, Some(1_000_000_000));
    assert_eq!(t.grids.len(), 2);
    assert_eq!(t.grids[0].id, 3);
    assert_eq!(t.grids[1].id, 4);
    assert_eq!(t.window_counter, 4);
    assert_eq!(t.grids[0].name, "Bass");
    assert_eq!(t.grids[0].notes, busy_track().notes);
    assert_eq!(t.grids[0].timbre, busy_track().timbre);
    assert_eq!(t.grids[0].volume, 1_250_000);
    assert_eq!(t.grids[0].scale, Scale::Chromatic);
    assert_eq!(t.grids[1].notes, vec![false; 256]);
}
