use tenori_ish::grid::{Grid, Rgb};
use tenori_ish::scale::Scale;
use tenori_ish::timbre::Timbre;
use tinyrand::{Seeded, StdRand};

const RED: Rgb = Rgb { r: 255, g: 0, b: 0 };

#[test]
fn a_new_track_is_empty_and_in_c_major() {
    let grid = Grid::new(7, RED);
    assert_eq!(grid.notes, vec![false; 256]);
    assert_eq!(grid.volume, 1_000_000);
    assert_eq!(grid.scale, Scale::CMajor);
    assert_eq!(grid.id, 7);
    assert_eq!(grid.name, "New Track");
    assert!(grid.open);
    assert!(!grid.timbre_open);
    assert_eq!(grid.timbre, Timbre::default());
    assert_eq!(grid.color, RED);
    for beat in 0..16 {
        assert_eq!(grid.notes(beat), Vec::<i32>::new());
    }
}

#[test]
fn toggle_flips_one_cell() {
    let mut grid = Grid::new(1, RED);
    grid.toggle(3, 5);
    let mut expected = vec![false; 256];
    expected[3 * 16 + 5] = true;
    assert_eq!(grid.notes, expected);
    grid.toggle(3, 5);
    assert_eq!(grid.notes, vec![false; 256]);
}

#[test]
fn the_top_row_is_the_highest_pitch() {
    let mut grid = Grid::new(1, RED);
    grid.toggle(0, 0);
    assert_eq!(grid.notes(0), vec![17]);
    grid.toggle(15, 1);
    assert_eq!(grid.notes(1), vec![-9]);
    grid.toggle(10, 2);
    assert_eq!(grid.notes(2), vec![0]);
}

#[test]
fn tones_of_a_beat_come_from_the_top_row_down() {
    let mut grid = Grid::new(1, RED);
    grid.toggle(15, 4);
    grid.toggle(0, 4);
    grid.toggle(8, 4);
    grid.toggle(8, 5);
    assert_eq!(grid.notes(4), vec![17, 3, -9]);
    assert_eq!(grid.notes(5), vec![3]);
    assert_eq!(grid.notes(6), Vec::<i32>::new());
}

#[test]
fn tones_follow_the_scale_of_the_track() {
    let mut grid = Grid::new(1, RED);
    for row in 0..16 {
        grid.toggle(row, 9);
    }
    assert_eq!(grid.notes(9), vec![17, 15, 14, 12, 10, 8, 7, 5, 3, 2, 0, -2, -4, -5, -7, -9]);
    grid.scale = Scale::Pentatonic;
    assert_eq!(grid.notes(9), vec![27, 24, 22, 19, 17, 15, 12, 10, 7, 5, 3, 0, -2, -5, -7, -9]);
    grid.scale = Scale::Chromatic;
    assert_eq!(grid.notes(9), vec![6, 5, 4, 3, 2, 1, 0, -1, -2, -3, -4, -5, -6, -7, -8, -9]);
    grid.scale = Scale::CMinor;
    assert_eq!(grid.notes(9), vec![17, 15, 13, 11, 10, 8, 6, 5, 3, 1, -1, -2, -4, -6, -7, -9]);
    assert_eq!(grid.notes(8), Vec::<i32>::new());
}

#[test]
fn clear_switches_every_cell_off_and_keeps_the_rest() {
    let mut grid = Grid::new(4, RED);
    grid.toggle(2, 2);
    grid.toggle(15, 15);
    grid.volume = 1_500_000;
    grid.scale = Scale::CMinor;
    grid.clear();
    assert_eq!(grid.notes, vec![false; 256]);
    assert_eq!(grid.volume, 1_500_000);
    assert_eq!(grid.scale, Scale::CMinor);
    assert_eq!(grid.id, 4);
}

#[test]
fn hues_are_multiples_of_five_degrees_on_the_wheel() {
    for draw in 0..72 {
        assert_eq!(Grid::hue_of_draw(draw), draw * 5);
    }
    assert_eq!(Grid::hue_of_draw(71), 355);
    assert_eq!(Grid::hue_of_draw(72), 360);
}

#[test]
fn random_hues_stay_on_the_wheel() {
    let mut seen = std::collections::BTreeSet::new();
    for seed in 0..8u64 {
        let mut rand = StdRand::seed(seed);
        for _ in 0..500 {
            let hue = Grid::random_hue(&mut rand);
            assert!(hue < 360);
            assert_eq!(hue % 5, 0);
            seen.insert(hue);
        }
    }
    // the draws move around the wheel
    assert!(seen.len() > 36);
}
