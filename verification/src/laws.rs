//! Engine-wide laws, proved once and for all grids.
//!
//! Each proof function here states a behavioural guarantee of the
//! simulation over the spec functions that the engine's own contracts
//! use, so the guarantees compose with `Grid::tick`'s postcondition.

use vstd::prelude::*;
use vstd::arithmetic::div_mod::lemma_fundamental_div_mod;
use crate::actions::Action;
use crate::background::Background;
use crate::concrete::ConcreteParticle;
use crate::cornucopia::CornucopiaParticle;
use crate::grid::{
    kind_or_background, lemma_row_major_index, spec_neighbours, spec_scan, spec_step, spec_tick,
};
use crate::kinds::ParticleKind;
use crate::particle::{Neighbours, Particle};
use crate::processable::Processable;
use crate::salt::SaltParticle;
use crate::slot::Slot;
use crate::water::WaterParticle;

verus! {

/// The neighbourhood entry for an offset `(dx, dy)` with both
/// components in `-1 ..= 1`.
pub open spec fn spec_nb_at(nb: Neighbours, dx: int, dy: int) -> ParticleKind {
    if dy == -1 {
        if dx == -1 {
            nb.ul
        } else if dx == 0 {
            nb.up
        } else {
            nb.ur
        }
    } else if dy == 0 {
        if dx == -1 {
            nb.left
        } else if dx == 0 {
            nb.centre
        } else {
            nb.right
        }
    } else {
        if dx == -1 {
            nb.dl
        } else if dx == 0 {
            nb.down
        } else {
            nb.dr
        }
    }
}

/// A sampled window reports, at each offset, exactly the kind standing
/// at that position of the grid (background beyond its edges).
pub proof fn lemma_neighbours_sample(
    cells: Seq<Slot>,
    w: int,
    h: int,
    x: int,
    y: int,
    dx: int,
    dy: int,
)
    requires
        -1 <= dx <= 1,
        -1 <= dy <= 1,
    ensures
        spec_nb_at(spec_neighbours(cells, w, h, x, y), dx, dy) == kind_or_background(
            cells,
            w,
            h,
            x + dx,
            y + dy,
        ),
{
}

/// Every rule moves or grows only into a cell it sampled as empty, at
/// an offset other than its own cell, one step away at most.
pub proof fn lemma_rules_target_empty(s: Slot, nb: Neighbours)
    requires
        s.spec_dir_ok(),
    ensures
        match s.spec_action(nb) {
            Action::StayPut => true,
            Action::Pop => true,
            Action::Become(kind) => true,
            Action::MoveInto { x: dx, y: dy } => {
                &&& -1 <= dx <= 1
                &&& -1 <= dy <= 1
                &&& !(dx == 0 && dy == 0)
                &&& spec_nb_at(nb, dx as int, dy as int) == ParticleKind::Background
            },
            Action::GrowInto { x: dx, y: dy, kind } => {
                &&& -1 <= dx <= 1
                &&& -1 <= dy <= 1
                &&& !(dx == 0 && dy == 0)
                &&& spec_nb_at(nb, dx as int, dy as int) == ParticleKind::Background
                &&& kind != ParticleKind::Background
            },
        },
{
}

/// A salt particle with water anywhere among its eight neighbours
/// chooses to dissolve, whatever else surrounds it.
pub proof fn lemma_salt_dissolves(s: SaltParticle, nb: Neighbours)
    requires
        SaltParticle::spec_has_solvent_neighbour(nb),
    ensures
        s.spec_action(nb) == Action::Pop,
{
}

/// Water's direction memory does not flicker: a tick that resolves a
/// lateral move to the right leaves the memory pointing right, so a
/// later tick whose only options are the two lateral ones prefers the
/// right again.
pub proof fn lemma_water_prefers_remembered_direction(
    p: WaterParticle,
    nb1: Neighbours,
    nb2: Neighbours,
)
    requires
        p.spec_action(nb1) == (Action::MoveInto { x: 1, y: 0 }),
        nb2.down != ParticleKind::Background,
        nb2.dl != ParticleKind::Background,
        nb2.dr != ParticleKind::Background,
        nb2.left == ParticleKind::Background,
        nb2.right == ParticleKind::Background,
    ensures
        p.spec_after_action(nb1).last_dir_x == 1,
        p.spec_after_action(nb1).spec_action(nb2) == (Action::MoveInto { x: 1, y: 0 }),
{
}

/// A cornucopia that has (or can now take) a lock and still has an
/// empty neighbour emits exactly one grow action: into an empty
/// neighbour, with the locked kind, never background.
pub proof fn lemma_cornucopia_emits(c: CornucopiaParticle, nb: Neighbours)
    requires
        c.particle_kind_to_create != ParticleKind::Background
            || CornucopiaParticle::spec_found_kind(nb) != ParticleKind::Background,
        CornucopiaParticle::spec_free_neighbour(nb) is Some,
    ensures
        match c.spec_action(nb) {
            Action::GrowInto { x: dx, y: dy, kind } => {
                &&& spec_nb_at(nb, dx as int, dy as int) == ParticleKind::Background
                &&& kind == c.spec_locked(nb).particle_kind_to_create
                &&& kind != ParticleKind::Background
            },
            _ => false,
        },
{
}

/// A cornucopia with no empty neighbour left produces no growth at
/// all.
pub proof fn lemma_cornucopia_saturated(c: CornucopiaParticle, nb: Neighbours)
    requires
        CornucopiaParticle::spec_free_neighbour(nb) is None,
    ensures
        c.spec_action(nb) == Action::StayPut,
{
}

/// Recover in-range coordinates from a flat row-major index.
pub proof fn lemma_row_major_coords(w: int, h: int, n: int)
    requires
        0 < w,
        0 <= n < h * w,
    ensures
        0 <= n % w < w,
        0 <= n / w < h,
        n == (n / w) * w + (n % w),
{
    lemma_fundamental_div_mod(n, w);
    assert(0 <= n % w < w && 0 <= n / w < h && n == (n / w) * w + (n % w)) by (nonlinear_arith)
        requires
            0 < w,
            0 <= n < h * w,
            n == w * (n / w) + n % w,
            0 <= n % w < w,
    ;
}

/// One scan visit never changes how many cells the grid holds.
pub proof fn lemma_step_len(cells: Seq<Slot>, w: int, h: int, x: int, y: int)
    requires
        cells.len() == h * w,
        0 <= x < w,
        0 <= y < h,
    ensures
        spec_step(cells, w, h, x, y).len() == cells.len(),
{
    lemma_row_major_index(w, h, x, y);
    let i = y * w + x;
    if !cells[i].spec_processed() {
        let nb = spec_neighbours(cells, w, h, x, y);
        match cells[i].spec_action(nb) {
            Action::MoveInto { x: dx, y: dy } => {
                if 0 <= x + dx < w && 0 <= y + dy < h {
                    lemma_row_major_index(w, h, x + dx, y + dy);
                }
            },
            Action::GrowInto { x: dx, y: dy, kind } => {
                if 0 <= x + dx < w && 0 <= y + dy < h {
                    lemma_row_major_index(w, h, x + dx, y + dy);
                }
            },
            _ => {},
        }
    }
}

/// A scan never changes how many cells the grid holds.
pub proof fn lemma_scan_len(cells: Seq<Slot>, w: int, h: int, n: int)
    requires
        0 < w,
        cells.len() == h * w,
        n <= h * w,
    ensures
        spec_scan(cells, w, h, n).len() == cells.len(),
    decreases n,
{
    if n > 0 {
        lemma_scan_len(cells, w, h, n - 1);
        lemma_row_major_coords(w, h, n - 1);
        lemma_step_len(spec_scan(cells, w, h, n - 1), w, h, (n - 1) % w, (n - 1) / w);
    }
}

/// Scanning onwards over cells that are all marked processed changes
/// nothing: the scan skips every one of them.
pub proof fn lemma_scan_stall(cells: Seq<Slot>, w: int, h: int, n1: int, n2: int)
    requires
        0 < w,
        cells.len() == h * w,
        0 <= n1 <= n2 <= h * w,
        forall|m: int|
            n1 <= m < n2 ==> #[trigger] spec_scan(cells, w, h, n1)[m].spec_processed(),
    ensures
        spec_scan(cells, w, h, n2) == spec_scan(cells, w, h, n1),
    decreases n2 - n1,
{
    if n2 > n1 {
        lemma_scan_stall(cells, w, h, n1, n2 - 1);
        let m = n2 - 1;
        lemma_row_major_coords(w, h, m);
        lemma_row_major_index(w, h, m % w, m / w);
    }
}

/// Every cell except `i` holds a fresh background instance.
pub open spec fn spec_alone_at(cells: Seq<Slot>, i: int) -> bool {
    forall|j: int|
        0 <= j < cells.len() && j != i ==> cells[j] == Slot::spec_fresh(ParticleKind::Background)
}

/// Background and concrete are fixed points: a tick of a grid holding
/// only those two kinds leaves the grid identical.
pub proof fn lemma_inert_grid_is_fixed(cells: Seq<Slot>, w: int, h: int)
    requires
        0 <= w,
        0 <= h,
        cells.len() == h * w,
        forall|i: int|
            0 <= i < cells.len() ==> (#[trigger] cells[i] == Slot::Background(Background)
                || cells[i] == Slot::Concrete(ConcreteParticle)),
    ensures
        spec_tick(cells, w, h) == cells,
{
    let adv = cells.map_values(|s: Slot| s.spec_advanced());
    assert(adv =~= cells);
    if 0 < w {
        assert forall|m: int| 0 <= m < h * w implies #[trigger] spec_scan(
            cells,
            w,
            h,
            0,
        )[m].spec_processed() by {
            assert(spec_scan(cells, w, h, 0) == cells);
        }
        lemma_scan_stall(cells, w, h, 0, h * w);
    }
}

/// A single water particle over an empty cell falls exactly one row in
/// one tick; at the bottom row its move is dropped and it stays where
/// it is.
pub proof fn lemma_water_falls(
    cells: Seq<Slot>,
    w: int,
    h: int,
    x: int,
    y: int,
    p: WaterParticle,
)
    requires
        0 < w,
        0 <= x < w,
        0 <= y < h,
        cells.len() == h * w,
        cells[y * w + x] == Slot::Water(p),
        spec_alone_at(cells, y * w + x),
    ensures
        y + 1 < h ==> spec_tick(cells, w, h) == cells.update(
            y * w + x,
            Slot::spec_fresh(ParticleKind::Background),
        ).update(
            (y + 1) * w + x,
            Slot::Water(WaterParticle { processed: true, last_dir_x: p.last_dir_x }),
        ),
        y + 1 == h ==> spec_tick(cells, w, h) == cells.update(
            y * w + x,
            Slot::Water(WaterParticle { processed: false, last_dir_x: p.last_dir_x }),
        ),
{
    let i = y * w + x;
    lemma_row_major_index(w, h, x, y);
    let wp = WaterParticle { processed: false, last_dir_x: p.last_dir_x };
    let adv = cells.map_values(|s: Slot| s.spec_advanced());
    assert(adv =~= cells.update(i, Slot::Water(wp)));

    // Nothing before the water is awake: everything is background.
    assert forall|m: int| 0 <= m < i implies #[trigger] spec_scan(
        adv,
        w,
        h,
        0,
    )[m].spec_processed() by {
        assert(spec_scan(adv, w, h, 0) == adv);
    }
    lemma_scan_stall(adv, w, h, 0, i);

    // The water's own visit: below it is either an empty cell or the
    // grid's edge, so the rule chooses the straight-down move.
    lemma_row_major_coords(w, h, i);
    let nb = spec_neighbours(adv, w, h, x, y);
    if y + 1 < h {
        lemma_row_major_index(w, h, x, y + 1);
        assert((y + 1) * w + x == i + w) by (nonlinear_arith)
            requires
                i == y * w + x,
        ;
        assert(adv[i + w] == Slot::spec_fresh(ParticleKind::Background));
    }
    assert(nb.down == ParticleKind::Background);
    assert(spec_scan(adv, w, h, i + 1) == spec_step(adv, w, h, x, y));

    if y + 1 < h {
        let dest = (y + 1) * w + x;
        let target = cells.update(i, Slot::spec_fresh(ParticleKind::Background)).update(
            dest,
            Slot::Water(WaterParticle { processed: true, last_dir_x: p.last_dir_x }),
        );
        assert(spec_step(adv, w, h, x, y) =~= target);
        assert forall|m: int| i + 1 <= m < h * w implies #[trigger] spec_scan(
            adv,
            w,
            h,
            i + 1,
        )[m].spec_processed() by {
            assert(spec_scan(adv, w, h, i + 1) == target);
        }
        lemma_scan_stall(adv, w, h, i + 1, h * w);
        assert(spec_tick(cells, w, h) == target);
    } else {
        assert(spec_step(adv, w, h, x, y) =~= adv);
        assert forall|m: int| i + 1 <= m < h * w implies #[trigger] spec_scan(
            adv,
            w,
            h,
            i + 1,
        )[m].spec_processed() by {
            assert(spec_scan(adv, w, h, i + 1) == adv);
        }
        lemma_scan_stall(adv, w, h, i + 1, h * w);
        assert(spec_tick(cells, w, h) == adv);
        assert(adv =~= cells.update(i, Slot::Water(wp)));
    }
}

/// A salt particle with a water neighbour is removed within the tick:
/// here, with the water directly below it and nothing else on the
/// board, the salt's cell holds background once the tick is over.
pub proof fn lemma_salt_dissolved_by_water_below(
    cells: Seq<Slot>,
    w: int,
    h: int,
    x: int,
    y: int,
    s: SaltParticle,
    p: WaterParticle,
)
    requires
        0 < w,
        0 <= x < w,
        0 <= y,
        y + 1 < h,
        cells.len() == h * w,
        cells[y * w + x] == Slot::Salt(s),
        cells[(y + 1) * w + x] == Slot::Water(p),
        forall|j: int|
            0 <= j < cells.len() && j != y * w + x && j != (y + 1) * w + x ==> #[trigger] cells[j]
                == Slot::spec_fresh(ParticleKind::Background),
    ensures
        spec_tick(cells, w, h)[y * w + x] == Slot::spec_fresh(ParticleKind::Background),
{
    let i = y * w + x;
    lemma_row_major_index(w, h, x, y);
    lemma_row_major_index(w, h, x, y + 1);
    assert((y + 1) * w + x == i + w) by (nonlinear_arith)
        requires
            i == y * w + x,
    ;
    let wp = WaterParticle { processed: false, last_dir_x: p.last_dir_x };
    let adv = cells.map_values(|sl: Slot| sl.spec_advanced());
    assert(adv =~= cells.update(i, Slot::Salt(SaltParticle { processed: false })).update(
        i + w,
        Slot::Water(wp),
    ));

    // Up to the salt everything is background and therefore skipped.
    assert forall|m: int| 0 <= m < i implies #[trigger] spec_scan(
        adv,
        w,
        h,
        0,
    )[m].spec_processed() by {
        assert(spec_scan(adv, w, h, 0) == adv);
    }
    lemma_scan_stall(adv, w, h, 0, i);

    // The salt's visit: the sampled window has water below, so the
    // rule dissolves the salt.
    lemma_row_major_coords(w, h, i);
    let nb = spec_neighbours(adv, w, h, x, y);
    assert(nb.down == ParticleKind::Water);
    assert(SaltParticle::spec_has_solvent_neighbour(nb));
    let mid1 = adv.update(i, Slot::spec_fresh(ParticleKind::Background));
    assert(spec_scan(adv, w, h, i + 1) == spec_step(adv, w, h, x, y));
    assert(spec_step(adv, w, h, x, y) =~= mid1);

    // Between the salt and the water below it, only background.
    assert forall|m: int| i + 1 <= m < i + w implies #[trigger] spec_scan(
        adv,
        w,
        h,
        i + 1,
    )[m].spec_processed() by {
        assert(spec_scan(adv, w, h, i + 1) == mid1);
    }
    lemma_scan_stall(adv, w, h, i + 1, i + w);

    // The water's visit: it falls further or has its move dropped at
    // the bottom edge; either way the salt's old cell stays empty.
    lemma_row_major_coords(w, h, i + w);
    assert(spec_scan(adv, w, h, i + w + 1) == spec_step(mid1, w, h, x, y + 1));
    let nb2 = spec_neighbours(mid1, w, h, x, y + 1);
    let mid2 = spec_step(mid1, w, h, x, y + 1);
    if y + 2 < h {
        lemma_row_major_index(w, h, x, y + 2);
        assert((y + 2) * w + x == i + w + w) by (nonlinear_arith)
            requires
                i == y * w + x,
        ;
        assert(nb2.down == ParticleKind::Background);
        assert(mid2 =~= mid1.update(
            i + w + w,
            Slot::Water(WaterParticle { processed: true, last_dir_x: p.last_dir_x }),
        ).update(i + w, Slot::spec_fresh(ParticleKind::Background)));
    } else {
        assert(nb2.down == ParticleKind::Background);
        assert(mid2 =~= mid1);
    }

    // Past the water, everything left is background or already marked.
    assert forall|m: int| i + w + 1 <= m < h * w implies #[trigger] spec_scan(
        adv,
        w,
        h,
        i + w + 1,
    )[m].spec_processed() by {
        assert(spec_scan(adv, w, h, i + w + 1) == mid2);
    }
    lemma_scan_stall(adv, w, h, i + w + 1, h * w);
    assert(spec_tick(cells, w, h) == mid2);
    assert(mid2[i] == Slot::spec_fresh(ParticleKind::Background));
}

/// Every water particle on the board remembers a lateral unit.
pub open spec fn spec_all_dirs_ok(cells: Seq<Slot>) -> bool {
    forall|i: int| 0 <= i < cells.len() ==> (#[trigger] cells[i]).spec_dir_ok()
}

/// One scan visit preserves the direction invariant.
pub proof fn lemma_step_keeps_dirs_ok(cells: Seq<Slot>, w: int, h: int, x: int, y: int)
    requires
        cells.len() == h * w,
        0 <= x < w,
        0 <= y < h,
        spec_all_dirs_ok(cells),
    ensures
        spec_all_dirs_ok(spec_step(cells, w, h, x, y)),
{
    lemma_step_len(cells, w, h, x, y);
    lemma_row_major_index(w, h, x, y);
    let i = y * w + x;
    let res = spec_step(cells, w, h, x, y);
    if !cells[i].spec_processed() {
        let nb = spec_neighbours(cells, w, h, x, y);
        match cells[i].spec_action(nb) {
            Action::MoveInto { x: dx, y: dy } => {
                if 0 <= x + dx < w && 0 <= y + dy < h {
                    lemma_row_major_index(w, h, x + dx, y + dy);
                }
            },
            Action::GrowInto { x: dx, y: dy, kind } => {
                if 0 <= x + dx < w && 0 <= y + dy < h {
                    lemma_row_major_index(w, h, x + dx, y + dy);
                }
            },
            _ => {},
        }
        assert forall|j: int| 0 <= j < res.len() implies (#[trigger] res[j]).spec_dir_ok() by {
            assert(cells[j].spec_dir_ok());
            assert(cells[i].spec_dir_ok());
        }
    }
}

/// A whole scan preserves the direction invariant.
pub proof fn lemma_scan_keeps_dirs_ok(cells: Seq<Slot>, w: int, h: int, n: int)
    requires
        0 < w,
        cells.len() == h * w,
        0 <= n <= h * w,
        spec_all_dirs_ok(cells),
    ensures
        spec_all_dirs_ok(spec_scan(cells, w, h, n)),
    decreases n,
{
    if n > 0 {
        lemma_scan_keeps_dirs_ok(cells, w, h, n - 1);
        lemma_scan_len(cells, w, h, n - 1);
        lemma_row_major_coords(w, h, n - 1);
        lemma_step_keeps_dirs_ok(spec_scan(cells, w, h, n - 1), w, h, (n - 1) % w, (n - 1) / w);
    }
}

/// A whole tick is total on any well-sized grid and keeps its shape:
/// no cell is gained or lost, whatever the grid holds.
pub proof fn lemma_tick_preserves_len(cells: Seq<Slot>, w: int, h: int)
    requires
        0 <= w,
        0 <= h,
        cells.len() == h * w,
    ensures
        spec_tick(cells, w, h).len() == cells.len(),
{
    let adv = cells.map_values(|sl: Slot| sl.spec_advanced());
    if 0 < w {
        lemma_scan_len(adv, w, h, h * w);
    }
}

/// A whole tick preserves the direction invariant.
pub proof fn lemma_tick_keeps_dirs_ok(cells: Seq<Slot>, w: int, h: int)
    requires
        0 <= w,
        0 <= h,
        cells.len() == h * w,
        spec_all_dirs_ok(cells),
    ensures
        spec_all_dirs_ok(spec_tick(cells, w, h)),
{
    let adv = cells.map_values(|sl: Slot| sl.spec_advanced());
    assert forall|j: int| 0 <= j < adv.len() implies (#[trigger] adv[j]).spec_dir_ok() by {
        assert(cells[j].spec_dir_ok());
    }
    if 0 < w {
        lemma_scan_keeps_dirs_ok(adv, w, h, h * w);
    }
}

/// Throughout the scan, a cornucopia keeps its cell; once its lock is
/// something other than background it also keeps the lock, unchanged.
proof fn lemma_scan_keeps_cornucopia(
    cells: Seq<Slot>,
    w: int,
    h: int,
    x: int,
    y: int,
    c: CornucopiaParticle,
    n: int,
)
    requires
        0 < w,
        cells.len() == h * w,
        0 <= x < w,
        0 <= y < h,
        0 <= n <= h * w,
        spec_all_dirs_ok(cells),
        cells[y * w + x] == Slot::Cornucopia(c),
    ensures
        match spec_scan(cells, w, h, n)[y * w + x] {
            Slot::Cornucopia(c2) => c.particle_kind_to_create != ParticleKind::Background ==> c2
                == c,
            _ => false,
        },
    decreases n,
{
    lemma_row_major_index(w, h, x, y);
    let i = y * w + x;
    if n > 0 {
        lemma_scan_keeps_cornucopia(cells, w, h, x, y, c, n - 1);
        lemma_scan_keeps_dirs_ok(cells, w, h, n - 1);
        lemma_scan_len(cells, w, h, n - 1);
        let s1 = spec_scan(cells, w, h, n - 1);
        let m = n - 1;
        lemma_row_major_coords(w, h, m);
        let xm = m % w;
        let ym = m / w;
        lemma_row_major_index(w, h, xm, ym);
        if !s1[m].spec_processed() {
            let nb = spec_neighbours(s1, w, h, xm, ym);
            assert(s1[m].spec_dir_ok());
            lemma_rules_target_empty(s1[m], nb);
            match s1[m].spec_action(nb) {
                Action::MoveInto { x: dx, y: dy } => {
                    if 0 <= xm + dx < w && 0 <= ym + dy < h {
                        lemma_row_major_index(w, h, xm + dx, ym + dy);
                        lemma_neighbours_sample(s1, w, h, xm, ym, dx as int, dy as int);
                        assert((ym + dy) * w + (xm + dx) != i);
                    }
                },
                Action::GrowInto { x: dx, y: dy, kind } => {
                    if 0 <= xm + dx < w && 0 <= ym + dy < h {
                        lemma_row_major_index(w, h, xm + dx, ym + dy);
                        lemma_neighbours_sample(s1, w, h, xm, ym, dx as int, dy as int);
                        assert((ym + dy) * w + (xm + dx) != i);
                    }
                },
                _ => {},
            }
        }
    }
}

/// A locked cornucopia with empty surroundings emits exactly one new
/// particle per tick: its up-left neighbour — the first free cell in
/// scan order — receives a fresh instance of the locked kind, and no
/// other cell changes at all.
pub proof fn lemma_cornucopia_grows_once(
    cells: Seq<Slot>,
    w: int,
    h: int,
    x: int,
    y: int,
    c: CornucopiaParticle,
)
    requires
        0 < x < w,
        0 < y < h,
        cells.len() == h * w,
        cells[y * w + x] == Slot::Cornucopia(c),
        c.particle_kind_to_create != ParticleKind::Background,
        spec_alone_at(cells, y * w + x),
    ensures
        spec_tick(cells, w, h) == cells.update(
            (y - 1) * w + (x - 1),
            Slot::spec_fresh(c.particle_kind_to_create),
        ),
{
    let i = y * w + x;
    lemma_row_major_index(w, h, x, y);
    lemma_row_major_index(w, h, x - 1, y - 1);
    let dest = (y - 1) * w + (x - 1);
    let adv = cells.map_values(|sl: Slot| sl.spec_advanced());
    assert(adv =~= cells);

    // Everything before the cornucopia is empty, hence skipped.
    assert forall|m: int| 0 <= m < i implies #[trigger] spec_scan(
        adv,
        w,
        h,
        0,
    )[m].spec_processed() by {
        assert(spec_scan(adv, w, h, 0) == adv);
    }
    lemma_scan_stall(adv, w, h, 0, i);

    // The cornucopia's visit: the lock is taken, the first free
    // neighbour in scan order is up-left, so it grows there.
    lemma_row_major_coords(w, h, i);
    let nb = spec_neighbours(adv, w, h, x, y);
    assert(adv[dest] == Slot::spec_fresh(ParticleKind::Background));
    assert(nb.ul == ParticleKind::Background);
    assert(spec_scan(adv, w, h, i + 1) == spec_step(adv, w, h, x, y));
    let target = cells.update(dest, Slot::spec_fresh(c.particle_kind_to_create));
    assert((y - 1) * w + (x - 1) == y * w + x - w - 1) by (nonlinear_arith);
    assert(spec_step(adv, w, h, x, y) =~= target);

    // The grown cell lies before the cornucopia in scan order, so the
    // rest of the scan still only meets empty cells.
    assert forall|m: int| i + 1 <= m < h * w implies #[trigger] spec_scan(
        adv,
        w,
        h,
        i + 1,
    )[m].spec_processed() by {
        assert(spec_scan(adv, w, h, i + 1) == target);
        assert(dest < i);
    }
    lemma_scan_stall(adv, w, h, i + 1, h * w);
    assert(spec_tick(cells, w, h) == target);
}

/// A cornucopia is never consumed: after any whole tick its cell still
/// holds a cornucopia, and a lock once taken is still exactly the same
/// lock.
pub proof fn lemma_cornucopia_never_consumed(
    cells: Seq<Slot>,
    w: int,
    h: int,
    x: int,
    y: int,
    c: CornucopiaParticle,
)
    requires
        0 < w,
        cells.len() == h * w,
        0 <= x < w,
        0 <= y < h,
        spec_all_dirs_ok(cells),
        cells[y * w + x] == Slot::Cornucopia(c),
    ensures
        spec_tick(cells, w, h)[y * w + x].spec_kind() == ParticleKind::Cornucopia,
        c.particle_kind_to_create != ParticleKind::Background ==> spec_tick(cells, w, h)[y * w
            + x] == Slot::Cornucopia(c),
{
    lemma_row_major_index(w, h, x, y);
    let i = y * w + x;
    let adv = cells.map_values(|sl: Slot| sl.spec_advanced());
    assert(adv.len() == cells.len());
    assert(adv[i] == Slot::Cornucopia(c));
    assert forall|j: int| 0 <= j < adv.len() implies (#[trigger] adv[j]).spec_dir_ok() by {
        assert(cells[j].spec_dir_ok());
    }
    lemma_scan_keeps_cornucopia(adv, w, h, x, y, c, h * w);
}

} // verus!
