use vstd::prelude::*;
use vstd::arithmetic::div_mod::lemma_fundamental_div_mod_converse;
use crate::actions::Action;
use crate::colour::Colour;
use crate::kinds::ParticleKind;
use crate::particle::Neighbours;
use crate::slot::Slot;

verus! {

/// The kind found at `(x, y)` of a row-major cell array; every position
/// outside the grid reads as background.
pub open spec fn kind_or_background(
    cells: Seq<Slot>,
    w: int,
    h: int,
    x: int,
    y: int,
) -> ParticleKind {
    if 0 <= x < w && 0 <= y < h {
        cells[y * w + x].spec_kind()
    } else {
        ParticleKind::Background
    }
}

/// The 3x3 window of kinds sampled around `(x, y)` before its rule
/// runs.
pub open spec fn spec_neighbours(cells: Seq<Slot>, w: int, h: int, x: int, y: int) -> Neighbours {
    Neighbours {
        ul: kind_or_background(cells, w, h, x - 1, y - 1),
        up: kind_or_background(cells, w, h, x, y - 1),
        ur: kind_or_background(cells, w, h, x + 1, y - 1),
        left: kind_or_background(cells, w, h, x - 1, y),
        centre: kind_or_background(cells, w, h, x, y),
        right: kind_or_background(cells, w, h, x + 1, y),
        dl: kind_or_background(cells, w, h, x - 1, y + 1),
        down: kind_or_background(cells, w, h, x, y + 1),
        dr: kind_or_background(cells, w, h, x + 1, y + 1),
    }
}

/// The cell array after the action chosen by the particle at `(x, y)`
/// has been applied.
///
/// A move copies the acting instance into the destination, marks that
/// destination processed so it will not act again this tick, and leaves
/// a fresh background particle behind; a move whose destination lies
/// outside the grid is dropped, leaving the source untouched. Growing
/// overwrites the destination with a fresh instance without marking it
/// processed, and likewise drops out-of-grid destinations. `Become` is
/// deliberately without behaviour.
pub open spec fn spec_resolve(
    cells: Seq<Slot>,
    w: int,
    h: int,
    x: int,
    y: int,
    action: Action,
) -> Seq<Slot> {
    let i = y * w + x;
    match action {
        Action::StayPut => cells,
        Action::Become(kind) => cells,
        Action::Pop => cells.update(i, Slot::spec_fresh(ParticleKind::Background)),
        Action::MoveInto { x: dx, y: dy } => {
            if 0 <= x + dx < w && 0 <= y + dy < h {
                cells.update((y + dy) * w + (x + dx), cells[i].spec_mark_processed()).update(
                    i,
                    Slot::spec_fresh(ParticleKind::Background),
                )
            } else {
                cells
            }
        },
        Action::GrowInto { x: dx, y: dy, kind } => {
            if 0 <= x + dx < w && 0 <= y + dy < h {
                cells.update((y + dy) * w + (x + dx), Slot::spec_fresh(kind))
            } else {
                cells
            }
        },
    }
}

/// One scan visit to `(x, y)`: a cell that already acted this tick is
/// skipped; otherwise its rule runs on the freshly sampled
/// neighbourhood, its internal state is stored back, and the chosen
/// action is resolved.
pub open spec fn spec_step(cells: Seq<Slot>, w: int, h: int, x: int, y: int) -> Seq<Slot> {
    let i = y * w + x;
    if cells[i].spec_processed() {
        cells
    } else {
        let nb = spec_neighbours(cells, w, h, x, y);
        spec_resolve(cells.update(i, cells[i].spec_after_action(nb)), w, h, x, y, cells[i].spec_action(nb))
    }
}

/// The cell array after the scan has visited the first `n` cells in
/// row-major order (row by row, left to right). Because each visit
/// mutates the array in place, later cells observe the moves earlier
/// cells already made in the same tick.
pub open spec fn spec_scan(cells: Seq<Slot>, w: int, h: int, n: int) -> Seq<Slot>
    decreases n,
{
    if n <= 0 {
        cells
    } else {
        spec_step(spec_scan(cells, w, h, n - 1), w, h, (n - 1) % w, (n - 1) / w)
    }
}

/// The whole-tick transformation: first every particle's start-of-tick
/// hook runs (waking it up for this tick), then the grid is scanned
/// once in row-major order.
pub open spec fn spec_tick(cells: Seq<Slot>, w: int, h: int) -> Seq<Slot> {
    spec_scan(cells.map_values(|s: Slot| s.spec_advanced()), w, h, h * w)
}

/// Row-major indexing facts: the flat index of an in-bounds coordinate
/// pair lies within the array, and recovers its coordinates by division
/// and remainder.
pub proof fn lemma_row_major_index(w: int, h: int, x: int, y: int)
    requires
        0 <= x < w,
        0 <= y < h,
    ensures
        0 <= y * w + x < h * w,
        (y * w + x) % w == x,
        (y * w + x) / w == y,
{
    assert(0 <= y * w + x < h * w) by (nonlinear_arith)
        requires
            0 <= x < w,
            0 <= y < h,
    ;
    lemma_fundamental_div_mod_converse(y * w + x, w, y, x);
}

/// The simulation board: exclusive owner of a row-major array of
/// exactly `width * height` particle instances. "Empty" cells hold a
/// background particle; there are no vacant slots.
pub struct Grid {
    pub width: usize,
    pub height: usize,
    pub cells: Vec<Slot>,
}

impl Grid {
    /// The structural invariant: one particle instance per cell.
    pub open spec fn wf(self) -> bool {
        self.cells@.len() == self.width * self.height
    }

    /// A grid of the given dimensions, all cells empty.
    pub fn new(width: usize, height: usize) -> (g: Grid)
        requires
            width * height <= usize::MAX,
        ensures
            g.wf(),
            g.width == width,
            g.height == height,
            forall|i: int|
                0 <= i < g.cells@.len() ==> g.cells@[i] == Slot::spec_fresh(
                    ParticleKind::Background,
                ),
    {
        let n = width * height;
        let mut cells: Vec<Slot> = Vec::new();
        let mut i: usize = 0;
        while i < n
            invariant
                i <= n,
                cells@.len() == i,
                forall|j: int|
                    0 <= j < i ==> cells@[j] == Slot::spec_fresh(ParticleKind::Background),
            decreases n - i,
        {
            cells.push(Slot::of_kind(ParticleKind::Background));
            i += 1;
        }
        Grid { width, height, cells }
    }

    /// The flat index of the in-bounds coordinate pair `(x, y)`.
    fn cell_index(&self, x: usize, y: usize) -> (idx: usize)
        requires
            self.wf(),
            x < self.width,
            y < self.height,
        ensures
            idx == y * self.width + x,
            idx < self.cells@.len(),
    {
        let _n = self.cells.len();
        proof {
            lemma_row_major_index(self.width as int, self.height as int, x as int, y as int);
            assert(self.height as int * self.width as int == self.width as int
                * self.height as int) by (nonlinear_arith);
        }
        y * self.width + x
    }

    /// Overwrite one cell with a fresh instance of the given kind.
    /// Out-of-bounds coordinates are rejected and leave the grid
    /// untouched.
    pub fn paint(&mut self, x: usize, y: usize, kind: ParticleKind) -> (ok: bool)
        requires
            old(self).wf(),
        ensures
            final(self).wf(),
            final(self).width == old(self).width,
            final(self).height == old(self).height,
            ok == (x < old(self).width && y < old(self).height),
            ok ==> final(self).cells@ == old(self).cells@.update(
                y * old(self).width + x,
                Slot::spec_fresh(kind),
            ),
            !ok ==> *final(self) == *old(self),
    {
        if x < self.width && y < self.height {
            let idx = self.cell_index(x, y);
            self.cells.set(idx, Slot::of_kind(kind));
            true
        } else {
            false
        }
    }

    /// The kind occupying the cell at `(x, y)`.
    pub fn kind_at(&self, x: usize, y: usize) -> (k: ParticleKind)
        requires
            self.wf(),
            x < self.width,
            y < self.height,
        ensures
            k == self.cells@[y * self.width + x].spec_kind(),
    {
        let idx = self.cell_index(x, y);
        self.cells[idx].kind()
    }

    /// The colour the renderer should draw at `(x, y)`.
    pub fn colour_at(&self, x: usize, y: usize) -> (c: Colour)
        requires
            self.wf(),
            x < self.width,
            y < self.height,
        ensures
            c == self.cells@[y * self.width + x].spec_colour(),
    {
        let idx = self.cell_index(x, y);
        self.cells[idx].colour()
    }

    /// The flat index of `(x + dx, y + dy)`, or `None` when that
    /// position lies outside the grid.
    fn dest_index(&self, x: usize, y: usize, dx: i32, dy: i32) -> (r: Option<usize>)
        requires
            self.wf(),
            x < self.width,
            y < self.height,
        ensures
            match r {
                Some(idx) => 0 <= x + dx < self.width && 0 <= y + dy < self.height && idx == (y
                    + dy) * self.width + (x + dx) && idx < self.cells@.len(),
                None => !(0 <= x + dx < self.width && 0 <= y + dy < self.height),
            },
    {
        let xo: i128 = x as i128 + dx as i128;
        let yo: i128 = y as i128 + dy as i128;
        if 0 <= xo && xo < self.width as i128 && 0 <= yo && yo < self.height as i128 {
            let nx = xo as usize;
            let ny = yo as usize;
            Some(self.cell_index(nx, ny))
        } else {
            None
        }
    }

    /// The kind at offset `(dx, dy)` from `(x, y)`, background when the
    /// position falls outside the grid.
    fn kind_at_offset(&self, x: usize, y: usize, dx: i32, dy: i32) -> (k: ParticleKind)
        requires
            self.wf(),
            x < self.width,
            y < self.height,
        ensures
            k == kind_or_background(
                self.cells@,
                self.width as int,
                self.height as int,
                x + dx,
                y + dy,
            ),
    {
        match self.dest_index(x, y, dx, dy) {
            Some(idx) => self.cells[idx].kind(),
            None => ParticleKind::Background,
        }
    }

    /// Sample the 3x3 neighbourhood of `(x, y)`.
    fn sample(&self, x: usize, y: usize) -> (nb: Neighbours)
        requires
            self.wf(),
            x < self.width,
            y < self.height,
        ensures
            nb == spec_neighbours(
                self.cells@,
                self.width as int,
                self.height as int,
                x as int,
                y as int,
            ),
    {
        Neighbours {
            ul: self.kind_at_offset(x, y, -1, -1),
            up: self.kind_at_offset(x, y, 0, -1),
            ur: self.kind_at_offset(x, y, 1, -1),
            left: self.kind_at_offset(x, y, -1, 0),
            centre: self.kind_at_offset(x, y, 0, 0),
            right: self.kind_at_offset(x, y, 1, 0),
            dl: self.kind_at_offset(x, y, -1, 1),
            down: self.kind_at_offset(x, y, 0, 1),
            dr: self.kind_at_offset(x, y, 1, 1),
        }
    }

    /// Apply the action chosen by the particle at `(x, y)`.
    fn resolve(&mut self, x: usize, y: usize, action: Action)
        requires
            old(self).wf(),
            x < old(self).width,
            y < old(self).height,
        ensures
            final(self).wf(),
            final(self).width == old(self).width,
            final(self).height == old(self).height,
            final(self).cells@ == spec_resolve(
                old(self).cells@,
                old(self).width as int,
                old(self).height as int,
                x as int,
                y as int,
                action,
            ),
    {
        match action {
            Action::StayPut => {},
            Action::Become(_kind) => {},
            Action::Pop => {
                let idx = self.cell_index(x, y);
                self.cells.set(idx, Slot::of_kind(ParticleKind::Background));
            },
            Action::MoveInto { x: dx, y: dy } => {
                match self.dest_index(x, y, dx, dy) {
                    Some(dest) => {
                        let idx = self.cell_index(x, y);
                        let mut moved = self.cells[idx];
                        moved.mark_processed();
                        self.cells.set(dest, moved);
                        self.cells.set(idx, Slot::of_kind(ParticleKind::Background));
                    },
                    None => {},
                }
            },
            Action::GrowInto { x: dx, y: dy, kind } => {
                match self.dest_index(x, y, dx, dy) {
                    Some(dest) => {
                        self.cells.set(dest, Slot::of_kind(kind));
                    },
                    None => {},
                }
            },
        }
    }

    /// Advance the whole board by exactly one logical tick.
    ///
    /// The resulting cell array is exactly `spec_tick` of the old one:
    /// every particle is woken, then each not-yet-processed cell, in
    /// row-major order, samples its neighbourhood, evaluates its rule
    /// and has its action resolved in place.
    pub fn tick(&mut self)
        requires
            old(self).wf(),
        ensures
            final(self).wf(),
            final(self).width == old(self).width,
            final(self).height == old(self).height,
            final(self).cells@ == spec_tick(
                old(self).cells@,
                old(self).width as int,
                old(self).height as int,
            ),
    {
        let ghost orig = self.cells@;
        let n = self.cells.len();
        let mut i: usize = 0;
        while i < n
            invariant
                i <= n,
                n == self.cells@.len(),
                self.cells@.len() == orig.len(),
                self.width == old(self).width,
                self.height == old(self).height,
                forall|j: int| 0 <= j < i ==> self.cells@[j] == orig[j].spec_advanced(),
                forall|j: int| i <= j < n ==> self.cells@[j] == orig[j],
            decreases n - i,
        {
            let mut s = self.cells[i];
            s.advance();
            self.cells.set(i, s);
            i += 1;
        }
        proof {
            assert(self.cells@ =~= orig.map_values(|s: Slot| s.spec_advanced()));
        }

        let ghost start = self.cells@;
        let ghost wi = self.width as int;
        let ghost hi = self.height as int;
        let w = self.width;
        let h = self.height;
        let mut y: usize = 0;
        while y < h
            invariant
                y <= h,
                w == self.width,
                h == self.height,
                wi == w as int,
                hi == h as int,
                self.width == old(self).width,
                self.height == old(self).height,
                start.len() == wi * hi,
                self.cells@ == spec_scan(start, wi, hi, y * w),
                self.cells@.len() == start.len(),
            decreases h - y,
        {
            let mut x: usize = 0;
            while x < w
                invariant
                    y < h,
                    x <= w,
                    w == self.width,
                    h == self.height,
                    wi == w as int,
                    hi == h as int,
                    self.width == old(self).width,
                    self.height == old(self).height,
                    start.len() == wi * hi,
                    self.cells@ == spec_scan(start, wi, hi, y * w + x),
                    self.cells@.len() == start.len(),
                decreases w - x,
            {
                proof {
                    lemma_row_major_index(wi, hi, x as int, y as int);
                }
                let idx = self.cell_index(x, y);
                if !self.cells[idx].was_processed() {
                    let nb = self.sample(x, y);
                    let mut s = self.cells[idx];
                    let action = s.act(nb);
                    self.cells.set(idx, s);
                    self.resolve(x, y, action);
                }
                assert(self.cells@ == spec_scan(start, wi, hi, y * w + x + 1));
                x += 1;
            }
            assert(y * w + w == (y + 1) * w) by (nonlinear_arith);
            y += 1;
        }
        proof {
            assert(h * w == hi * wi) by (nonlinear_arith)
                requires
                    hi == h as int,
                    wi == w as int,
            ;
        }
    }
}

} // verus!
