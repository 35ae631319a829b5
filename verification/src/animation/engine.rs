//! The life cycle that every particle system shares: move each particle,
//! drop those that are no longer alive, paint the rest.

use std::collections::VecDeque;
use vstd::prelude::*;
use crate::render::capabilities::{adapted, ColorSupport};
use crate::render::grid::{in_bounds, lemma_put_cell_bounds, Cell, TerminalRenderer};
use crate::render::stamp::{with_glyph, Glyph};

verus! {

/// The size of the terminal at the time of a tick.
#[derive(Clone, Copy, Debug)]
pub struct Stage {
    pub width: u16,
    pub height: u16,
}

/// One simulated element of a system whose particles move, die and show
/// according to a setting of type `C`: the terminal's size and whatever
/// else the system's rules read.
pub trait Particle<C>: Sized {
    /// The particle one tick later.
    spec fn stepped(self, stage: C) -> Self;

    /// Whether the particle stays in its system.
    spec fn alive(self, stage: C) -> bool;

    fn step(&mut self, stage: &C)
        ensures
            *final(self) == old(self).stepped(*stage),
    ;

    fn is_alive(&self, stage: &C) -> (alive: bool)
        ensures
            alive == self.alive(*stage),
    ;
}

/// Something that shows as a single character.
pub trait Dot<C>: Sized {
    /// What it shows and where, if it shows at all.
    spec fn glyph(self, stage: C) -> Option<Glyph>;

    fn project(&self, stage: &C) -> (glyph: Option<Glyph>)
        ensures
            glyph == self.glyph(*stage),
    ;
}

/// The first `n` particles one tick later, without those that are no
/// longer alive then, in their old order.
pub open spec fn survivors<C, P: Particle<C>>(particles: Seq<P>, stage: C, n: int) -> Seq<P>
    decreases n,
{
    if n <= 0 {
        Seq::empty()
    } else {
        let rest = survivors(particles, stage, n - 1);
        let moved = particles[n - 1].stepped(stage);
        if moved.alive(stage) {
            rest.push(moved)
        } else {
            rest
        }
    }
}

/// A whole population one tick later.
pub open spec fn next_generation<C, P: Particle<C>>(particles: Seq<P>, stage: C) -> Seq<P> {
    survivors(particles, stage, particles.len() as int)
}

/// A population after `ticks` ticks in which nothing is spawned.
pub open spec fn after_ticks<C, P: Particle<C>>(particles: Seq<P>, stage: C, ticks: nat) -> Seq<P>
    decreases ticks,
{
    if ticks == 0 {
        particles
    } else {
        next_generation(after_ticks(particles, stage, (ticks - 1) as nat), stage)
    }
}

/// A tick never adds a particle, and every particle that is left after
/// it is alive.
pub proof fn lemma_survivors_conserved<C, P: Particle<C>>(particles: Seq<P>, stage: C, n: int)
    requires
        0 <= n <= particles.len(),
    ensures
        survivors(particles, stage, n).len() <= n,
        forall|i: int|
            0 <= i < survivors(particles, stage, n).len() ==> (#[trigger] survivors(
                particles,
                stage,
                n,
            )[i]).alive(stage),
    decreases n,
{
    if n > 0 {
        lemma_survivors_conserved(particles, stage, n - 1);
    }
}

/// With nothing spawned, the number of particles never grows from one
/// tick to the next, and from the first tick on every particle that is
/// left is alive.
pub proof fn lemma_ticks_conserved<C, P: Particle<C>>(particles: Seq<P>, stage: C, ticks: nat)
    ensures
        after_ticks(particles, stage, ticks).len() <= particles.len(),
        ticks > 0 ==> after_ticks(particles, stage, ticks).len() <= after_ticks(
            particles,
            stage,
            (ticks - 1) as nat,
        ).len(),
        ticks > 0 ==> forall|i: int|
            0 <= i < after_ticks(particles, stage, ticks).len() ==> (#[trigger] after_ticks(
                particles,
                stage,
                ticks,
            )[i]).alive(stage),
    decreases ticks,
{
    if ticks > 0 {
        let before = after_ticks(particles, stage, (ticks - 1) as nat);
        lemma_ticks_conserved(particles, stage, (ticks - 1) as nat);
        lemma_survivors_conserved(before, stage, before.len() as int);
    }
}

/// The grid after the first `n` particles are painted on it in order.
pub open spec fn painted<C, P: Dot<C>>(
    cells: Seq<Cell>,
    w: int,
    h: int,
    support: ColorSupport,
    particles: Seq<P>,
    stage: C,
    n: int,
) -> Seq<Cell>
    decreases n,
{
    if n <= 0 {
        cells
    } else {
        let before = painted(cells, w, h, support, particles, stage, n - 1);
        match particles[n - 1].glyph(stage) {
            Some(glyph) => with_glyph(before, w, h, support, glyph),
            None => before,
        }
    }
}

/// Painting particles never changes the size of the grid, and a
/// particle that shows nothing, or shows off the grid, leaves every cell
/// as it is.
pub proof fn lemma_painted_keeps_size<C, P: Dot<C>>(
    cells: Seq<Cell>,
    w: int,
    h: int,
    support: ColorSupport,
    particles: Seq<P>,
    stage: C,
    n: int,
)
    requires
        cells.len() == w * h,
        0 <= w,
        0 <= h,
        0 <= n <= particles.len(),
    ensures
        painted(cells, w, h, support, particles, stage, n).len() == cells.len(),
        n > 0 && (match particles[n - 1].glyph(stage) {
            Some(glyph) => !in_bounds(w, h, glyph.x as int, glyph.y as int),
            None => true,
        }) ==> painted(cells, w, h, support, particles, stage, n) == painted(
            cells,
            w,
            h,
            support,
            particles,
            stage,
            n - 1,
        ),
    decreases n,
{
    if n > 0 {
        lemma_painted_keeps_size(cells, w, h, support, particles, stage, n - 1);
        match particles[n - 1].glyph(stage) {
            Some(glyph) => {
                lemma_put_cell_bounds(
                    painted(cells, w, h, support, particles, stage, n - 1),
                    w,
                    h,
                    glyph.x as int,
                    glyph.y as int,
                    Cell { character: glyph.character, color: adapted(support, glyph.color) },
                );
            },
            None => {},
        }
    }
}

/// Moves every particle by one tick and drops those that are no longer
/// alive.
pub fn advance<C, P: Particle<C> + Copy>(particles: &mut Vec<P>, stage: &C)
    ensures
        final(particles)@ == next_generation(old(particles)@, *stage),
{
    let n: usize = particles.len();
    let mut kept: usize = 0;
    let mut i: usize = 0;
    while i < n
        invariant
            kept <= i <= n,
            particles@.len() == n,
            n == old(particles)@.len(),
            particles@.take(kept as int) == survivors(old(particles)@, *stage, i as int),
            forall|k: int| i <= k < n ==> particles@[k] == old(particles)@[k],
        decreases n - i,
    {
        let mut p: P = particles[i];
        p.step(stage);
        if p.is_alive(stage) {
            particles[kept] = p;
            kept += 1;
        } else {
        }
        i += 1;
    }
    particles.truncate(kept);
}

/// Moves every particle of a queue by one tick and drops those that are
/// no longer alive: each is taken from the front and, if it lives on,
/// put back at the end, so that the order stays.
pub fn advance_queue<C, P: Particle<C>>(particles: &mut VecDeque<P>, stage: &C)
    ensures
        final(particles)@ == next_generation(old(particles)@, *stage),
{
    let n: usize = particles.len();
    let mut i: usize = 0;
    while i < n
        invariant
            i <= n,
            n == old(particles)@.len(),
            particles@ == old(particles)@.skip(i as int) + survivors(
                old(particles)@,
                *stage,
                i as int,
            ),
        decreases n - i,
    {
        let ghost before = particles@;
        let ghost kept = survivors(old(particles)@, *stage, i as int);
        assert(before[0] == old(particles)@[i as int]);
        match particles.pop_front() {
            Some(first) => {
                assert(particles@ =~= old(particles)@.skip(i + 1) + kept);
                let mut moved = first;
                moved.step(stage);
                if moved.is_alive(stage) {
                    particles.push_back(moved);
                    assert(particles@ =~= old(particles)@.skip(i + 1) + kept.push(moved));
                }
            },
            None => {},
        }
        i += 1;
    }
    assert(particles@ =~= survivors(old(particles)@, *stage, n as int));
}

/// The last `most` of a list, or all of it where it has no more.
pub open spec fn last_of<T>(all: Seq<T>, most: int) -> Seq<T> {
    if all.len() > most {
        all.skip(all.len() - most)
    } else {
        all
    }
}

/// Drops the oldest of a queue, at its front, until no more than `most`
/// are left.
pub fn keep_newest<T>(queue: &mut VecDeque<T>, most: usize)
    ensures
        final(queue)@ == last_of(old(queue)@, most as int),
{
    let ghost mut gone: int = 0;
    while queue.len() > most
        invariant
            0 <= gone <= old(queue)@.len(),
            queue@ == old(queue)@.skip(gone),
            gone == 0 || queue@.len() >= most,
        decreases queue@.len(),
    {
        let first = queue.pop_front();
        proof {
            gone = gone + 1;
            assert(queue@ =~= old(queue)@.skip(gone));
        }
    }
    assert(old(queue)@.skip(0) =~= old(queue)@);
}

/// How many particles a tick would leave, without moving any.
pub fn count_survivors<C, P: Particle<C> + Copy>(particles: &Vec<P>, stage: &C) -> (left: usize)
    ensures
        left == next_generation(particles@, *stage).len(),
{
    let mut left: usize = 0;
    let mut i: usize = 0;
    while i < particles.len()
        invariant
            left <= i <= particles.len(),
            left == survivors(particles@, *stage, i as int).len(),
        decreases particles.len() - i,
    {
        let mut p: P = particles[i];
        p.step(stage);
        if p.is_alive(stage) {
            left += 1;
        }
        i += 1;
    }
    left
}

/// Paints every particle that shows, in order.
pub fn paint<C, P: Dot<C>>(grid: &mut TerminalRenderer, particles: &Vec<P>, stage: &C)
    ensures
        final(grid).same_frame(old(grid)),
        final(grid).cells() == painted(
            old(grid).cells(),
            old(grid).width() as int,
            old(grid).height() as int,
            old(grid).support(),
            particles@,
            *stage,
            particles@.len() as int,
        ),
{
    let mut i: usize = 0;
    while i < particles.len()
        invariant
            i <= particles.len(),
            grid.same_frame(old(grid)),
            grid.cells() == painted(
                old(grid).cells(),
                old(grid).width() as int,
                old(grid).height() as int,
                old(grid).support(),
                particles@,
                *stage,
                i as int,
            ),
        decreases particles.len() - i,
    {
        match particles[i].project(stage) {
            Some(glyph) => {
                grid.draw(glyph);
            },
            None => {},
        }
        i += 1;
    }
}

/// Paints every particle of a queue that shows, from the oldest to the
/// newest.
pub fn paint_queue<C, P: Dot<C>>(grid: &mut TerminalRenderer, particles: &VecDeque<P>, stage: &C)
    ensures
        final(grid).same_frame(old(grid)),
        final(grid).cells() == painted(
            old(grid).cells(),
            old(grid).width() as int,
            old(grid).height() as int,
            old(grid).support(),
            particles@,
            *stage,
            particles@.len() as int,
        ),
{
    let mut i: usize = 0;
    while i < particles.len()
        invariant
            i <= particles.len(),
            grid.same_frame(old(grid)),
            grid.cells() == painted(
                old(grid).cells(),
                old(grid).width() as int,
                old(grid).height() as int,
                old(grid).support(),
                particles@,
                *stage,
                i as int,
            ),
        decreases particles.len() - i,
    {
        match particles[i].project(stage) {
            Some(glyph) => {
                grid.draw(glyph);
            },
            None => {},
        }
        i += 1;
    }
}

} // verus!
