use minautomata::grid::Grid;
use minautomata::kinds::ParticleKind;

fn grid_kinds(g: &Grid, w: usize, h: usize) -> Vec<ParticleKind> {
    let mut v = Vec::new();
    for y in 0..h {
        for x in 0..w {
            v.push(g.kind_at(x, y));
        }
    }
    v
}

#[test]
pub fn test_init() {
    let _ = Grid::new(128, 104);
}

#[test]
pub fn test_update() {
    let mut g = Grid::new(128, 104);
    for _ in 0..10 {
        g.tick();
    }
}

#[test]
fn test_new_grid_is_all_background() {
    let g = Grid::new(5, 4);
    for y in 0..4 {
        for x in 0..5 {
            assert_eq!(ParticleKind::Background, g.kind_at(x, y));
        }
    }
}

#[test]
fn test_water_center_falls_one_row() {
    // 3x3 grid, centre water, everything else background: after one
    // tick the centre is empty and the cell below it holds the water.
    let mut g = Grid::new(3, 3);
    assert!(g.paint(1, 1, ParticleKind::Water));
    g.tick();
    assert_eq!(ParticleKind::Background, g.kind_at(1, 1));
    assert_eq!(ParticleKind::Water, g.kind_at(1, 2));
}

#[test]
fn test_water_falls_one_row_per_tick_then_rests() {
    let mut g = Grid::new(1, 4);
    assert!(g.paint(0, 0, ParticleKind::Water));
    g.tick();
    assert_eq!(ParticleKind::Background, g.kind_at(0, 0));
    assert_eq!(ParticleKind::Water, g.kind_at(0, 1));
    g.tick();
    assert_eq!(ParticleKind::Water, g.kind_at(0, 2));
    g.tick();
    assert_eq!(ParticleKind::Water, g.kind_at(0, 3));
    // At the bottom row the straight-down move is dropped: it stays.
    g.tick();
    assert_eq!(ParticleKind::Water, g.kind_at(0, 3));
}

#[test]
fn test_salt_falls() {
    let mut g = Grid::new(1, 3);
    assert!(g.paint(0, 0, ParticleKind::Salt));
    g.tick();
    assert_eq!(ParticleKind::Background, g.kind_at(0, 0));
    assert_eq!(ParticleKind::Salt, g.kind_at(0, 1));
}

#[test]
fn test_salt_dissolves_next_to_water_below() {
    let mut g = Grid::new(3, 3);
    assert!(g.paint(1, 1, ParticleKind::Salt));
    assert!(g.paint(1, 2, ParticleKind::Water));
    g.tick();
    assert_eq!(ParticleKind::Background, g.kind_at(1, 1));
}

#[test]
fn test_salt_dissolves_next_to_water_above() {
    // The water above acts first and slides diagonally down, but it is
    // still among the salt's neighbours when the salt is evaluated.
    let mut g = Grid::new(3, 3);
    assert!(g.paint(1, 1, ParticleKind::Salt));
    assert!(g.paint(1, 0, ParticleKind::Water));
    g.tick();
    assert_eq!(ParticleKind::Background, g.kind_at(1, 1));
}

#[test]
fn test_water_remembers_flowing_right() {
    // A channel over a concrete floor; the water is first forced to
    // the right, and afterwards keeps choosing the right even when
    // both sides are free.
    let mut g = Grid::new(4, 2);
    for x in 0..4 {
        assert!(g.paint(x, 1, ParticleKind::Concrete));
    }
    assert!(g.paint(0, 0, ParticleKind::Concrete));
    assert!(g.paint(1, 0, ParticleKind::Water));
    g.tick();
    // Only the right was open: it moved right and remembered that.
    assert_eq!(ParticleKind::Background, g.kind_at(1, 0));
    assert_eq!(ParticleKind::Water, g.kind_at(2, 0));
    g.tick();
    // Both sides free now; the memory says right, so no flicker back.
    assert_eq!(ParticleKind::Background, g.kind_at(2, 0));
    assert_eq!(ParticleKind::Water, g.kind_at(3, 0));
}

#[test]
fn test_wood_falls_and_prefers_right() {
    let mut g = Grid::new(3, 2);
    for x in 0..3 {
        assert!(g.paint(x, 1, ParticleKind::Concrete));
    }
    assert!(g.paint(1, 0, ParticleKind::Wood));
    g.tick();
    // Floor below and on both lower diagonals: it slides right.
    assert_eq!(ParticleKind::Background, g.kind_at(1, 0));
    assert_eq!(ParticleKind::Wood, g.kind_at(2, 0));
}

#[test]
fn test_background_and_concrete_grid_is_fixed_point() {
    let mut g = Grid::new(4, 4);
    assert!(g.paint(0, 3, ParticleKind::Concrete));
    assert!(g.paint(1, 3, ParticleKind::Concrete));
    assert!(g.paint(2, 1, ParticleKind::Concrete));
    let before = grid_kinds(&g, 4, 4);
    for _ in 0..3 {
        g.tick();
    }
    assert_eq!(before, grid_kinds(&g, 4, 4));
}

#[test]
fn test_cornucopia_locks_and_emits_one_salt_per_tick() {
    // Cornucopia in the centre of a 3x3 board with a single salt
    // neighbour: every tick adds exactly one salt until all eight
    // neighbours are full, then the board no longer changes, and the
    // cornucopia itself is never consumed.
    let mut g = Grid::new(3, 3);
    assert!(g.paint(1, 1, ParticleKind::Cornucopia));
    assert!(g.paint(0, 0, ParticleKind::Salt));
    let mut salts_before = 1;
    for _ in 0..12 {
        g.tick();
        let kinds = grid_kinds(&g, 3, 3);
        let salts = kinds.iter().filter(|k| **k == ParticleKind::Salt).count();
        let expected = if salts_before < 8 { salts_before + 1 } else { 8 };
        assert_eq!(expected, salts);
        assert_eq!(ParticleKind::Cornucopia, g.kind_at(1, 1));
        salts_before = salts;
    }
    assert_eq!(8, salts_before);
    // Saturated: a further tick changes nothing.
    let before = grid_kinds(&g, 3, 3);
    g.tick();
    assert_eq!(before, grid_kinds(&g, 3, 3));
}

#[test]
fn test_scan_order_first_mover_wins() {
    // Two waters flanking a single gap over a concrete floor: the one
    // visited first in row-major order takes the shared destination;
    // the other's fallback move leaves the grid and is dropped.
    let mut g = Grid::new(3, 2);
    assert!(g.paint(0, 1, ParticleKind::Concrete));
    assert!(g.paint(2, 1, ParticleKind::Concrete));
    assert!(g.paint(0, 0, ParticleKind::Water));
    assert!(g.paint(2, 0, ParticleKind::Water));
    g.tick();
    assert_eq!(ParticleKind::Background, g.kind_at(0, 0));
    assert_eq!(ParticleKind::Water, g.kind_at(1, 1));
    assert_eq!(ParticleKind::Water, g.kind_at(2, 0));
}

#[test]
fn test_paint_out_of_bounds_is_rejected() {
    let mut g = Grid::new(2, 2);
    assert!(!g.paint(2, 0, ParticleKind::Salt));
    assert!(!g.paint(0, 2, ParticleKind::Salt));
    for y in 0..2 {
        for x in 0..2 {
            assert_eq!(ParticleKind::Background, g.kind_at(x, y));
        }
    }
}

#[test]
fn test_growth_beyond_the_edge_is_dropped() {
    // A cornucopia on the top row reads the synthesized background
    // above it as its first free neighbour; growing there falls
    // outside the grid and is dropped, so nothing is ever produced.
    let mut g = Grid::new(3, 4);
    assert!(g.paint(1, 0, ParticleKind::Cornucopia));
    assert!(g.paint(0, 0, ParticleKind::Salt));
    for _ in 0..6 {
        g.tick();
    }
    let kinds = grid_kinds(&g, 3, 4);
    let salts = kinds.iter().filter(|k| **k == ParticleKind::Salt).count();
    assert_eq!(1, salts);
    // The lone salt has settled on the grid floor meanwhile.
    assert_eq!(ParticleKind::Salt, g.kind_at(0, 3));
    assert_eq!(ParticleKind::Cornucopia, g.kind_at(1, 0));
}
