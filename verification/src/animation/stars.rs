//! Stars that twinkle in place, and now and then a shooting star.

use vstd::prelude::*;
use crate::animation::engine::{advance, next_generation, paint, painted, Dot, Particle, Stage};
use crate::fixed::{
    advance_angle, chance, hits, lemma_scaled_bounds, plus, sat_add, scale, scaled, sin, sin_milli,
    turned_on, TAU_MILLI, UNIT,
};
use crate::random::{draw_bool, draw_u16, draw_unit, RandomSource};
use crate::render::capabilities::ColorSupport;
use crate::render::color::Color;
use crate::render::grid::{Cell, TerminalRenderer};
use crate::render::stamp::{with_glyph, Glyph};

verus! {

/// One star. The brightness runs from 0 to 1000, the phase of the
/// twinkle is in thousandths of a radian.
#[derive(Clone, Copy, Debug)]
pub struct Star {
    pub x: u16,
    pub y: u16,
    pub brightness: u16,
    pub phase: i64,
}

/// A shooting star. Positions and speeds are thousandths of a cell.
#[derive(Clone, Copy, Debug)]
pub struct ShootingStar {
    pub x: i64,
    pub y: i64,
    pub speed_x: i64,
    pub speed_y: i64,
    /// Cells that the head and its trail take up.
    pub length: u16,
    pub active: bool,
}

/// A place in the sky.
#[derive(Clone, Copy, Debug)]
pub struct Spot {
    pub x: u16,
    pub y: u16,
}

/// The random numbers that make a shooting star.
#[derive(Clone, Copy, Debug)]
pub struct ShootingSeed {
    /// Decides the column.
    pub column: u16,
    /// Decides the row.
    pub row: u16,
    /// Whether it flies to the right.
    pub rightward: bool,
    /// A fraction that is added to the falling speed.
    pub fall: u32,
}

/// The stars.
pub struct StarSystem {
    pub stars: Vec<Star>,
    pub shooting_star: Option<ShootingStar>,
    pub terminal_width: u16,
    pub terminal_height: u16,
}

/// How many stars a terminal of `w` by `h` cells gets: one for every
/// eighty cells.
pub open spec fn star_count(w: u16, h: u16) -> int {
    (w * h) / 80
}

/// Whether two places are less than three cells apart.
pub open spec fn near(ax: u16, ay: u16, bx: u16, by: u16) -> bool {
    (ax - bx) * (ax - bx) + (ay - by) * (ay - by) < 9
}

/// Whether a place is less than three cells from one of the stars.
pub open spec fn crowded(stars: Seq<Star>, x: u16, y: u16) -> bool {
    exists|i: int| 0 <= i < stars.len() && near((#[trigger] stars[i]).x, stars[i].y, x, y)
}

/// The brightness at a phase of the twinkle, from 0 to 1000.
pub open spec fn twinkle(phase: i64) -> u16 {
    ((sin(phase) + 1000) / 2) as u16
}

/// Whether a star may have been put on a terminal of `w` by `h` cells:
/// it lies in the upper half.
pub open spec fn placed(star: Star, w: u16, h: u16) -> bool {
    &&& star.x < (if w > 1 { w } else { 1 })
    &&& star.y < (if h / 2 > 1 { h / 2 } else { 1 })
    &&& star.brightness <= 1000
    &&& 0 <= star.phase <= TAU_MILLI
}

/// The first `n` stars without those that lie off a terminal of `w` by
/// `h` cells.
pub open spec fn fitting(stars: Seq<Star>, w: u16, h: u16, n: int) -> Seq<Star>
    decreases n,
{
    if n <= 0 {
        Seq::empty()
    } else {
        let rest = fitting(stars, w, h, n - 1);
        if stars[n - 1].x < w && stars[n - 1].y < h {
            rest.push(stars[n - 1])
        } else {
            rest
        }
    }
}

impl Particle<Stage> for Star {
    /// A star twinkles and never goes.
    open spec fn stepped(self, stage: Stage) -> Star {
        let phase = turned_on(self.phase, 50);
        Star { phase, brightness: twinkle(phase), ..self }
    }

    open spec fn alive(self, stage: Stage) -> bool {
        true
    }

    fn step(&mut self, stage: &Stage) {
        let phase = advance_angle(self.phase, 50);
        self.phase = phase;
        self.brightness = ((sin_milli(phase) + 1000) / 2) as u16;
    }

    fn is_alive(&self, stage: &Stage) -> (alive: bool) {
        true
    }
}

impl Dot<Stage> for Star {
    open spec fn glyph(self, stage: Stage) -> Option<Glyph> {
        Some(
            Glyph {
                x: self.x as i64,
                y: self.y as i64,
                character: if self.brightness > 800 {
                    '*'
                } else if self.brightness > 400 {
                    '+'
                } else {
                    '.'
                },
                color: if self.brightness > 600 {
                    Color::White
                } else {
                    Color::DarkGrey
                },
            },
        )
    }

    fn project(&self, stage: &Stage) -> (glyph: Option<Glyph>) {
        let character = if self.brightness > 800 {
            '*'
        } else if self.brightness > 400 {
            '+'
        } else {
            '.'
        };
        let color = if self.brightness > 600 {
            Color::White
        } else {
            Color::DarkGrey
        };
        Some(Glyph { x: self.x as i64, y: self.y as i64, character, color })
    }
}

/// Whether a place is less than three cells from one of the stars.
pub fn too_close(stars: &Vec<Star>, x: u16, y: u16) -> (close: bool)
    ensures
        close == crowded(stars@, x, y),
{
    let mut i: usize = 0;
    while i < stars.len()
        invariant
            i <= stars.len(),
            forall|k: int| 0 <= k < i ==> !near((#[trigger] stars@[k]).x, stars@[k].y, x, y),
        decreases stars.len() - i,
    {
        let dx: i64 = stars[i].x as i64 - x as i64;
        let dy: i64 = stars[i].y as i64 - y as i64;
        assert(0 <= dx * dx <= 65535 * 65535) by (nonlinear_arith)
            requires
                -65535 <= dx <= 65535,
        ;
        assert(0 <= dy * dy <= 65535 * 65535) by (nonlinear_arith)
            requires
                -65535 <= dy <= 65535,
        ;
        if dx * dx + dy * dy < 9 {
            return true;
        }
        i += 1;
    }
    false
}

/// The place for a new star among the candidates from place `from` on:
/// the first that is not too close to a star, or the last of them where
/// all are.
pub open spec fn first_free(stars: Seq<Star>, candidates: Seq<Spot>, from: int) -> Spot
    decreases candidates.len() - from,
{
    if from + 1 >= candidates.len() {
        candidates[candidates.len() - 1]
    } else if !crowded(stars, candidates[from].x, candidates[from].y) {
        candidates[from]
    } else {
        first_free(stars, candidates, from + 1)
    }
}

/// The random numbers that make one star.
pub struct StarSeed {
    /// The places that are tried for it, in order.
    pub spots: Vec<Spot>,
    /// A fraction of the full brightness.
    pub brightness: u32,
    /// A fraction of a full turn: where in its twinkle the star starts.
    pub phase: u32,
}

/// Whether the places of a seed lie in the upper half of a terminal of
/// `w` by `h` cells, and there is one at least.
pub open spec fn seed_fits(seed: StarSeed, w: u16, h: u16) -> bool {
    &&& seed.spots@.len() > 0
    &&& seed.brightness < UNIT
    &&& seed.phase < UNIT
    &&& forall|k: int|
        0 <= k < seed.spots@.len() ==> (#[trigger] seed.spots@[k]).x < (if w > 1 {
            w
        } else {
            1
        }) && seed.spots@[k].y < (if h / 2 > 1 {
            h / 2
        } else {
            1
        })
}

/// The star that a seed makes among the stars that there are.
pub open spec fn new_star(stars: Seq<Star>, seed: StarSeed) -> Star {
    let spot = first_free(stars, seed.spots@, 0);
    Star {
        x: spot.x,
        y: spot.y,
        brightness: scaled(seed.brightness, 1000) as u16,
        phase: scaled(seed.phase, TAU_MILLI as u32),
    }
}

/// The stars after the first `n` seeds have each added one to them.
pub open spec fn laid_out(stars: Seq<Star>, seeds: Seq<StarSeed>, n: int) -> Seq<Star>
    decreases n,
{
    if n <= 0 {
        stars
    } else {
        let before = laid_out(stars, seeds, n - 1);
        before.push(new_star(before, seeds[n - 1]))
    }
}

/// The place for a new star: the first of the candidates that is not
/// too close to a star, or the last of them where all are; none where
/// there is no candidate.
pub fn pick_spot(stars: &Vec<Star>, candidates: &Vec<Spot>) -> (spot: Option<Spot>)
    ensures
        candidates@.len() == 0 ==> spot is None,
        candidates@.len() > 0 ==> spot == Some(first_free(stars@, candidates@, 0)),
{
    if candidates.len() == 0 {
        return None;
    }
    let mut k: usize = 0;
    while k + 1 < candidates.len()
        invariant
            k < candidates.len(),
            first_free(stars@, candidates@, 0) == first_free(stars@, candidates@, k as int),
        decreases candidates.len() - k,
    {
        if !too_close(stars, candidates[k].x, candidates[k].y) {
            return Some(candidates[k]);
        }
        k += 1;
    }
    Some(candidates[k])
}

/// Makes the star of a seed among the stars that there are; a seed
/// without places puts it in the top left corner.
pub fn place_star(stars: &Vec<Star>, seed: &StarSeed) -> (star: Star)
    ensures
        seed.spots@.len() > 0 ==> star == new_star(stars@, *seed),
{
    let spot = match pick_spot(stars, &seed.spots) {
        Some(spot) => spot,
        None => Spot { x: 0, y: 0 },
    };
    Star {
        x: spot.x,
        y: spot.y,
        brightness: scale(seed.brightness, 1000) as u16,
        phase: scale(seed.phase, TAU_MILLI as u32),
    }
}

/// The grid after a shooting star's head and the first `n` cells of its
/// trail are painted, each where it lies on a terminal of `w` by `h`
/// cells.
pub open spec fn streak(
    cells: Seq<Cell>,
    gw: int,
    gh: int,
    support: ColorSupport,
    star: ShootingStar,
    w: u16,
    h: u16,
    n: int,
) -> Seq<Cell>
    decreases n + 1,
{
    if n < 0 {
        cells
    } else {
        let before = streak(cells, gw, gh, support, star, w, h, n - 1);
        let x = star.x - star.speed_x * n;
        let y = star.y - star.speed_y * n;
        let cx = crate::fixed::trunc_div(x, 1000);
        let cy = crate::fixed::trunc_div(y, 1000);
        if 0 <= cx < w && 0 <= cy < h {
            with_glyph(
                before,
                gw,
                gh,
                support,
                Glyph {
                    x: cx as i64,
                    y: cy as i64,
                    character: if n == 0 {
                        '*'
                    } else if n == 1 {
                        '+'
                    } else {
                        '.'
                    },
                    color: Color::White,
                },
            )
        } else {
            before
        }
    }
}

/// The shooting star that a seed makes: in the middle half of the upper
/// quarter, flying one and a half cells a tick sideways and half a cell
/// to a whole one downwards.
pub open spec fn new_shooting_star(seed: ShootingSeed, w: u16, h: u16) -> ShootingStar {
    let columns: int = if w / 2 > 1 { w as int / 2 } else { 1 };
    let rows: int = if h / 4 > 1 { h as int / 4 } else { 1 };
    ShootingStar {
        x: ((seed.column as int % columns + w as int / 4) * 1000) as i64,
        y: ((seed.row as int % rows) * 1000) as i64,
        speed_x: if seed.rightward { 1500i64 } else { -1500i64 },
        speed_y: (500 + scaled(seed.fall, 500)) as i64,
        length: 5,
        active: true,
    }
}

/// What a tick makes of the shooting star: one that is there flies on
/// and goes when it leaves the terminal to the left or at the bottom;
/// where there is none, one comes five times in a thousand.
pub open spec fn next_shooting_star(
    now: Option<ShootingStar>,
    w: u16,
    h: u16,
    gate: u32,
    seed: ShootingSeed,
) -> Option<ShootingStar> {
    match now {
        Some(star) => {
            let x = plus(star.x, star.speed_x);
            let y = plus(star.y, star.speed_y);
            if x < 0 || y >= h * 1000 || star.length == 0 {
                None
            } else {
                Some(ShootingStar { x, y, ..star })
            }
        },
        None => if hits(gate, 5) {
            Some(new_shooting_star(seed, w, h))
        } else {
            None
        },
    }
}

/// The place that is picked is one of the candidates.
pub proof fn lemma_first_free_is_a_candidate(stars: Seq<Star>, candidates: Seq<Spot>, from: int)
    requires
        0 <= from < candidates.len(),
    ensures
        exists|k: int|
            from <= k < candidates.len() && first_free(stars, candidates, from)
                == #[trigger] candidates[k],
    decreases candidates.len() - from,
{
    if from + 1 >= candidates.len() {
        assert(first_free(stars, candidates, from) == candidates[candidates.len() - 1]);
    } else if !crowded(stars, candidates[from].x, candidates[from].y) {
    } else {
        lemma_first_free_is_a_candidate(stars, candidates, from + 1);
    }
}

/// What the first `n` seeds lay out does not depend on the seeds after
/// them.
pub proof fn lemma_laid_out_agrees(
    stars: Seq<Star>,
    seeds: Seq<StarSeed>,
    longer: Seq<StarSeed>,
    n: int,
)
    requires
        0 <= n <= seeds.len() <= longer.len(),
        forall|k: int| 0 <= k < n ==> seeds[k] == longer[k],
    ensures
        laid_out(stars, seeds, n) == laid_out(stars, longer, n),
    decreases n,
{
    if n > 0 {
        lemma_laid_out_agrees(stars, seeds, longer, n - 1);
    }
}

impl StarSystem {
    /// Stars for a terminal of the given size.
    pub fn new<R: RandomSource>(terminal_width: u16, terminal_height: u16, rng: &mut R) -> (system:
        StarSystem)
        ensures
            Self::relaid(Seq::empty(), system.stars@, terminal_width, terminal_height),
            system.stars@.len() == star_count(terminal_width, terminal_height),
            forall|i: int|
                0 <= i < system.stars@.len() ==> #[trigger] placed(
                    system.stars@[i],
                    terminal_width,
                    terminal_height,
                ),
            system.shooting_star is None,
            system.terminal_width == terminal_width,
            system.terminal_height == terminal_height,
    {
        let none: Vec<Star> = Vec::new();
        let stars = Self::create_stars(terminal_width, terminal_height, &none, rng);
        StarSystem { stars, shooting_star: None, terminal_width, terminal_height }
    }

    /// What laying the stars out anew for a terminal of `w` by `h` cells
    /// may make of the stars that there were: those of them that still
    /// lie on the terminal stay, and unless they are more than the
    /// terminal gets, as many new ones as it gets join them one by one
    /// in the upper half, each in the first of fifty-one random places
    /// that is three cells or more from every star before it, or in the
    /// last of them.
    pub open spec fn relaid(before: Seq<Star>, after: Seq<Star>, w: u16, h: u16) -> bool {
        let kept = fitting(before, w, h, before.len() as int);
        let count = star_count(w, h);
        if count < kept.len() {
            after == kept
        } else {
            exists|seeds: Seq<StarSeed>|
                {
                    &&& seeds.len() == count
                    &&& forall|i: int|
                        0 <= i < count ==> {
                            &&& seed_fits(#[trigger] seeds[i], w, h)
                            &&& seeds[i].spots@.len() == 51
                        }
                    &&& after == #[trigger] laid_out(kept, seeds, count)
                }
        }
    }

    /// Lays the stars out anew; see [`StarSystem::relaid`].
    pub fn create_stars<R: RandomSource>(
        terminal_width: u16,
        terminal_height: u16,
        initial_stars: &Vec<Star>,
        rng: &mut R,
    ) -> (stars: Vec<Star>)
        ensures
            Self::relaid(initial_stars@, stars@, terminal_width, terminal_height),
            ({
                let kept = fitting(
                    initial_stars@,
                    terminal_width,
                    terminal_height,
                    initial_stars@.len() as int,
                );
                let count = star_count(terminal_width, terminal_height);
                &&& stars@.len() == if count < kept.len() {
                    kept.len() as int
                } else {
                    kept.len() + count
                }
                &&& stars@.take(kept.len() as int) == kept
                &&& forall|i: int|
                    kept.len() <= i < stars@.len() ==> #[trigger] placed(
                        stars@[i],
                        terminal_width,
                        terminal_height,
                    )
            }),
    {
        let ghost kept = fitting(
            initial_stars@,
            terminal_width,
            terminal_height,
            initial_stars@.len() as int,
        );
        let mut stars: Vec<Star> = Vec::new();
        let mut i: usize = 0;
        while i < initial_stars.len()
            invariant
                i <= initial_stars.len(),
                stars@ == fitting(initial_stars@, terminal_width, terminal_height, i as int),
            decreases initial_stars.len() - i,
        {
            let star = initial_stars[i];
            if star.x < terminal_width && star.y < terminal_height {
                stars.push(star);
            }
            i += 1;
        }
        assert(terminal_width * terminal_height <= 65535 * 65535) by (nonlinear_arith)
            requires
                terminal_width <= 65535,
                terminal_height <= 65535,
        ;
        let count: usize = ((terminal_width as u64 * terminal_height as u64) / 80) as usize;
        if count < stars.len() {
            return stars;
        }
        let columns: u16 = if terminal_width > 1 {
            terminal_width
        } else {
            1
        };
        let rows: u16 = if terminal_height / 2 > 1 {
            terminal_height / 2
        } else {
            1
        };
        let ghost mut seeds: Seq<StarSeed> = Seq::empty();
        let mut added: usize = 0;
        while added < count
            invariant
                added <= count,
                count <= 65535 * 65535,
                columns == (if terminal_width > 1 { terminal_width } else { 1 }),
                rows == (if terminal_height / 2 > 1 { terminal_height / 2 } else { 1 }),
                seeds.len() == added,
                forall|k: int|
                    0 <= k < added ==> seed_fits(
                        #[trigger] seeds[k],
                        terminal_width,
                        terminal_height,
                    ) && seeds[k].spots@.len() == 51,
                stars@ == laid_out(kept, seeds, added as int),
                stars@.len() == kept.len() + added,
                stars@.take(kept.len() as int) == kept,
                forall|k: int|
                    kept.len() <= k < stars@.len() ==> #[trigger] placed(
                        stars@[k],
                        terminal_width,
                        terminal_height,
                    ),
            decreases count - added,
        {
            let mut spots: Vec<Spot> = Vec::new();
            let mut tries: usize = 0;
            while tries < 51
                invariant
                    tries <= 51,
                    spots@.len() == tries,
                    columns > 0,
                    rows > 0,
                    forall|k: int|
                        0 <= k < spots@.len() ==> (#[trigger] spots@[k]).x < columns && spots@[k].y
                            < rows,
                decreases 51 - tries,
            {
                let x: u16 = draw_u16(rng) % columns;
                let y: u16 = draw_u16(rng) % rows;
                spots.push(Spot { x, y });
                tries += 1;
            }
            let seed = StarSeed { spots, brightness: draw_unit(rng), phase: draw_unit(rng) };
            let star = place_star(&stars, &seed);
            proof {
                lemma_scaled_bounds(seed.phase, TAU_MILLI as u32);
                lemma_first_free_is_a_candidate(stars@, seed.spots@, 0);
                let grown = seeds.push(seed);
                lemma_laid_out_agrees(kept, seeds, grown, added as int);
                seeds = grown;
            }
            stars.push(star);
            added += 1;
        }
        stars
    }

    /// What a tick with the given random numbers makes of the stars on
    /// a terminal whose size has not changed: every star twinkles, and
    /// the shooting star flies, goes or comes.
    pub open spec fn ticked(&self, next: &StarSystem, gate: u32, seed: ShootingSeed) -> bool {
        let stage = Stage { width: self.terminal_width, height: self.terminal_height };
        &&& next.terminal_width == self.terminal_width
        &&& next.terminal_height == self.terminal_height
        &&& next.stars@ == next_generation(self.stars@, stage)
        &&& next.shooting_star == next_shooting_star(
            self.shooting_star,
            self.terminal_width,
            self.terminal_height,
            gate,
            seed,
        )
    }

    /// One tick on a terminal whose size has not changed, with the
    /// random numbers given.
    pub fn tick(&mut self, gate: u32, seed: ShootingSeed)
        ensures
            old(self).ticked(final(self), gate, seed),
    {
        let stage = Stage { width: self.terminal_width, height: self.terminal_height };
        advance(&mut self.stars, &stage);
        let w = self.terminal_width;
        let h = self.terminal_height;
        match self.shooting_star {
            Some(star) => {
                let x = sat_add(star.x, star.speed_x);
                let y = sat_add(star.y, star.speed_y);
                if x < 0 || y >= (h as i64) * 1000 || star.length == 0 {
                    self.shooting_star = None;
                } else {
                    self.shooting_star = Some(
                        ShootingStar {
                            x,
                            y,
                            speed_x: star.speed_x,
                            speed_y: star.speed_y,
                            length: star.length,
                            active: star.active,
                        },
                    );
                }
            },
            None => {
                if chance(gate, 5) {
                    let columns: u16 = if w / 2 > 1 {
                        w / 2
                    } else {
                        1
                    };
                    let rows: u16 = if h / 4 > 1 {
                        h / 4
                    } else {
                        1
                    };
                    self.shooting_star = Some(
                        ShootingStar {
                            x: ((seed.column % columns) as i64 + (w / 4) as i64) * 1000,
                            y: ((seed.row % rows) as i64) * 1000,
                            speed_x: if seed.rightward {
                                1500
                            } else {
                                -1500
                            },
                            speed_y: 500 + scale(seed.fall, 500),
                            length: 5,
                            active: true,
                        },
                    );
                }
            },
        }
    }

    /// What one tick on some random numbers may make of the system.
    pub open spec fn updated(
        &self,
        next: &Self,
        terminal_width: u16,
        terminal_height: u16,
    ) -> bool {
        &&& next.terminal_width == terminal_width
        &&& next.terminal_height == terminal_height
        &&& if terminal_width == self.terminal_width && terminal_height == self.terminal_height {
            exists|gate: u32, seed: ShootingSeed|
                #[trigger] self.ticked(next, gate, seed) && gate < UNIT && seed.fall < UNIT
        } else {
            &&& next.shooting_star == self.shooting_star
            &&& Self::relaid(self.stars@, next.stars@, terminal_width, terminal_height)
        }
    }

    /// One tick: on a new terminal size the stars are laid out anew as
    /// [`StarSystem::create_stars`] says and nothing else happens;
    /// otherwise the stars twinkle and the shooting star moves as
    /// [`StarSystem::tick`] says.
    pub fn update<R: RandomSource>(
        &mut self,
        terminal_width: u16,
        terminal_height: u16,
        rng: &mut R,
    )
        ensures
            old(self).updated(final(self), terminal_width, terminal_height),
    {
        if terminal_width != self.terminal_width || terminal_height != self.terminal_height {
            let stars = Self::create_stars(terminal_width, terminal_height, &self.stars, rng);
            self.stars = stars;
            self.terminal_width = terminal_width;
            self.terminal_height = terminal_height;
            return;
        }
        let gate = draw_unit(rng);
        let column = draw_u16(rng);
        let row = draw_u16(rng);
        let rightward = draw_bool(rng);
        let fall = draw_unit(rng);
        self.tick(gate, ShootingSeed { column, row, rightward, fall });
    }

    /// The grid after the system is painted on it.
    pub open spec fn rendered(
        &self,
        cells: Seq<Cell>,
        w: int,
        h: int,
        support: ColorSupport,
    ) -> Seq<Cell> {
        ({
                let sky = painted(
                    cells,
                    w,
                    h,
                    support,
                    self.stars@,
                    Stage { width: self.terminal_width, height: self.terminal_height },
                    self.stars@.len() as int,
                );
                match self.shooting_star {
                    Some(star) => if star.active {
                        streak(
                            sky,
                            w,
                            h,
                            support,
                            star,
                            self.terminal_width,
                            self.terminal_height,
                            if star.length >= 1 {
                                star.length - 1
                            } else {
                                0
                            },
                        )
                    } else {
                        sky
                    },
                    None => sky,
                }
        })
    }

    /// Paints the stars, and over them the shooting star with its trail.
    pub fn render(&self, renderer: &mut TerminalRenderer)
        ensures
            final(renderer).same_frame(old(renderer)),
            final(renderer).cells() == self.rendered(
                old(renderer).cells(),
                old(renderer).width() as int,
                old(renderer).height() as int,
                old(renderer).support(),
            ),
    {
        let stage = Stage { width: self.terminal_width, height: self.terminal_height };
        paint(renderer, &self.stars, &stage);
        let ghost sky = renderer.cells();
        match self.shooting_star {
            Some(star) => {
                if star.active {
                    let last: u16 = if star.length >= 1 {
                        star.length - 1
                    } else {
                        0
                    };
                    let mut n: u16 = 0;
                    loop
                        invariant_except_break
                            n <= last,
                            renderer.same_frame(old(renderer)),
                            renderer.cells() == streak(
                                sky,
                                old(renderer).width() as int,
                                old(renderer).height() as int,
                                old(renderer).support(),
                                star,
                                self.terminal_width,
                                self.terminal_height,
                                n - 1,
                            ),
                        ensures
                            renderer.same_frame(old(renderer)),
                            renderer.cells() == streak(
                                sky,
                                old(renderer).width() as int,
                                old(renderer).height() as int,
                                old(renderer).support(),
                                star,
                                self.terminal_width,
                                self.terminal_height,
                                last as int,
                            ),
                        decreases last - n,
                    {
                        assert(-0x8000_0000_0000_0000 * 65535 <= star.speed_x * n
                            <= 0x8000_0000_0000_0000 * 65535) by (nonlinear_arith)
                            requires
                                -0x8000_0000_0000_0000 <= star.speed_x <= 0x7fff_ffff_ffff_ffff,
                                0 <= n <= 65535,
                        ;
                        assert(-0x8000_0000_0000_0000 * 65535 <= star.speed_y * n
                            <= 0x8000_0000_0000_0000 * 65535) by (nonlinear_arith)
                            requires
                                -0x8000_0000_0000_0000 <= star.speed_y <= 0x7fff_ffff_ffff_ffff,
                                0 <= n <= 65535,
                        ;
                        let x: i128 = star.x as i128 - (star.speed_x as i128) * (n as i128);
                        let y: i128 = star.y as i128 - (star.speed_y as i128) * (n as i128);
                        let cx: i128 = x / 1000;
                        let cy: i128 = y / 1000;
                        if 0 <= cx && cx < self.terminal_width as i128 && 0 <= cy && cy
                            < self.terminal_height as i128 {
                            let character = if n == 0 {
                                '*'
                            } else if n == 1 {
                                '+'
                            } else {
                                '.'
                            };
                            renderer.put(cx as i64, cy as i64, character, Color::White);
                        }
                        if n == last {
                            break;
                        }
                        n += 1;
                    }
                }
            },
            None => {},
        }
    }
}

} // verus!
