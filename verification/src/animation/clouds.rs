//! Clouds that drift from left to right across the upper third of the sky.

use vstd::prelude::*;
use crate::animation::engine::{
    advance, lemma_survivors_conserved, next_generation, Particle, Stage,
};
use crate::fixed::{cell, cell_of, chance, hits, plus, sat_add, scale, scaled, UNIT};
use crate::random::{draw_u16, draw_unit, RandomSource};
use crate::render::capabilities::ColorSupport;
use crate::render::color::Color;
use crate::render::grid::{Cell, TerminalRenderer};
use crate::render::stamp::{stamped, str_rows, Opaque};

verus! {

/// One cloud. Positions and the speed are thousandths of a cell;
/// `shape` picks one of the four shapes.
#[derive(Clone, Copy, Debug)]
pub struct Cloud {
    pub x: i64,
    pub y: i64,
    pub speed: i64,
    pub shape: usize,
    pub color: Color,
}

/// The random numbers that make one cloud.
#[derive(Clone, Copy, Debug)]
pub struct CloudSeed {
    /// Any word; decides the shape.
    pub shape: u32,
    /// Decides the row.
    pub row: u16,
    /// Decides the column of a cloud that starts on the terminal.
    pub column: u16,
    /// A fraction that is added to the speed.
    pub speed: u32,
}

/// The lines of a shape; shapes are counted round and round.
pub open spec fn cloud_art(shape: int) -> Seq<&'static str> {
    if shape % 4 == 0 {
        seq!["   .--.   ", " .-(    ). ", "(___.__)_)"]
    } else if shape % 4 == 1 {
        seq!["      _  _   ", "    ( `   )_ ", "   (    )    `)", "    \\_  (___  )"]
    } else if shape % 4 == 2 {
        seq!["     .--.    ", "  .-(    ).  ", " (___.__)__) "]
    } else {
        seq!["   _  _   ", "  ( `   )_ ", " (    )   `)", "  `--'     "]
    }
}

/// The length of a shape's first line.
pub open spec fn cloud_span(shape: int) -> int {
    if shape % 4 == 0 || shape % 4 == 3 {
        10
    } else {
        13
    }
}

/// The cloud that a seed makes: in the upper third, and either in a
/// random column or just left of the terminal.
pub open spec fn new_cloud(seed: CloudSeed, w: u16, h: u16, random_x: bool, color: Color) -> Cloud {
    let rows: int = if h / 3 > 1 { h as int / 3 } else { 1 };
    let columns: int = if w > 1 { w as int } else { 1 };
    let shape = seed.shape as int % 4;
    Cloud {
        x: if random_x {
            ((seed.column as int % columns) * 1000) as i64
        } else {
            (-cloud_span(shape) * 1000) as i64
        },
        y: ((seed.row as int % rows) * 1000) as i64,
        speed: (50 + scaled(seed.speed, 100)) as i64,
        shape: shape as usize,
        color,
    }
}

impl Particle<Stage> for Cloud {
    open spec fn stepped(self, stage: Stage) -> Cloud {
        Cloud { x: plus(self.x, self.speed), ..self }
    }

    open spec fn alive(self, stage: Stage) -> bool {
        self.x < stage.width * 1000
    }

    fn step(&mut self, stage: &Stage) {
        self.x = sat_add(self.x, self.speed);
    }

    fn is_alive(&self, stage: &Stage) -> (alive: bool) {
        self.x < (stage.width as i64) * 1000
    }
}

/// The clouds.
pub struct CloudSystem {
    pub clouds: Vec<Cloud>,
    pub terminal_width: u16,
    pub terminal_height: u16,
}

/// The lines of a shape.
pub fn create_cloud_shape(shape: usize) -> (art: Vec<&'static str>)
    ensures
        art@ == cloud_art(shape as int),
{
    let pick: usize = shape % 4;
    let art = if pick == 0 {
        vec!["   .--.   ", " .-(    ). ", "(___.__)_)"]
    } else if pick == 1 {
        vec!["      _  _   ", "    ( `   )_ ", "   (    )    `)", "    \\_  (___  )"]
    } else if pick == 2 {
        vec!["     .--.    ", "  .-(    ).  ", " (___.__)__) "]
    } else {
        vec!["   _  _   ", "  ( `   )_ ", " (    )   `)", "  `--'     "]
    };
    art
}

/// Makes the cloud of a seed.
pub fn create_random_cloud(seed: CloudSeed, w: u16, h: u16, random_x: bool, color: Color) -> (cloud:
    Cloud)
    ensures
        cloud == new_cloud(seed, w, h, random_x, color),
{
    let rows: u16 = if h / 3 > 1 {
        h / 3
    } else {
        1
    };
    let columns: u16 = if w > 1 {
        w
    } else {
        1
    };
    let shape: usize = (seed.shape % 4) as usize;
    let span: i64 = if shape == 0 || shape == 3 {
        10
    } else {
        13
    };
    Cloud {
        x: if random_x {
            ((seed.column % columns) as i64) * 1000
        } else {
            -span * 1000
        },
        y: ((seed.row % rows) as i64) * 1000,
        speed: 50 + scale(seed.speed, 100),
        shape,
        color,
    }
}

/// The seed for a cloud, made of the next four words of the source: the
/// first whole, the lower halves of the next two, and the upper 24 bits
/// of the last as a fraction.
fn draw_cloud_seed<R: RandomSource>(rng: &mut R) -> (seed: CloudSeed)
    ensures
        seed.speed < UNIT,
        old(rng).foretold(0) matches Some(word) ==> seed.shape == word,
        old(rng).foretold(1) matches Some(word) ==> seed.row == word % 65536,
        old(rng).foretold(2) matches Some(word) ==> seed.column == word % 65536,
        old(rng).foretold(3) matches Some(word) ==> seed.speed == word / 256,
        forall|k: nat| #[trigger] final(rng).foretold(k) == old(rng).foretold(k + 4),
{
    let shape = rng.next_u32();
    let row = draw_u16(rng);
    let column = draw_u16(rng);
    let speed = draw_unit(rng);
    CloudSeed { shape, row, column, speed }
}

/// The most clouds on a terminal `w` wide: a fortieth of the width under
/// a clear sky, a twentieth otherwise.
pub open spec fn cloud_limit(w: u16, is_clear: bool) -> int {
    if is_clear {
        w as int / 40
    } else {
        w as int / 20
    }
}

/// The grid after the first `n` clouds are painted on it, each as its
/// shape in its colour, spaces included, and no further left than the
/// terminal's edge.
pub open spec fn clouds_painted(
    cells: Seq<Cell>,
    w: int,
    h: int,
    support: ColorSupport,
    clouds: Seq<Cloud>,
    n: int,
) -> Seq<Cell>
    decreases n,
{
    if n <= 0 {
        cells
    } else {
        let cloud = clouds[n - 1];
        let art = cloud_art(cloud.shape as int);
        stamped(
            clouds_painted(cells, w, h, support, clouds, n - 1),
            w,
            h,
            support,
            Opaque { color: cloud.color },
            str_rows(art),
            if cell(cloud.x) > 0 {
                cell(cloud.x) as int
            } else {
                0
            },
            cell(cloud.y) as int,
            art.len() as int,
        )
    }
}

/// Whether some seed makes this cloud in a random column, white.
pub open spec fn scattered(cloud: Cloud, w: u16, h: u16) -> bool {
    exists|seed: CloudSeed|
        seed.speed < UNIT && #[trigger] new_cloud(seed, w, h, true, Color::White) == cloud
}

/// The clouds with every colour replaced by `color`.
pub open spec fn tinted(clouds: Seq<Cloud>, color: Color) -> Seq<Cloud> {
    Seq::new(clouds.len(), |i: int| Cloud { color, ..clouds[i] })
}

impl CloudSystem {
    /// What a tick with the given random numbers makes of the clouds:
    /// every cloud drifts, those past the right edge go, and below the
    /// limit a new one joins at the left, two times in a thousand under
    /// a clear sky and five times otherwise.
    pub open spec fn ticked(
        &self,
        next: &CloudSystem,
        w: u16,
        h: u16,
        is_clear: bool,
        cloud_color: Color,
        gate: u32,
        seed: CloudSeed,
    ) -> bool {
        let left = next_generation(self.clouds@, Stage { width: w, height: h });
        &&& next.terminal_width == w
        &&& next.terminal_height == h
        &&& next.clouds@ == if left.len() < cloud_limit(w, is_clear) && hits(
            gate,
            if is_clear { 2 } else { 5 },
        ) {
            left.push(new_cloud(seed, w, h, false, cloud_color))
        } else {
            left
        }
    }

    /// White clouds scattered over the sky: one for every twenty columns,
    /// and one at least.
    pub fn new<R: RandomSource>(terminal_width: u16, terminal_height: u16, rng: &mut R) -> (system:
        CloudSystem)
        ensures
            system.clouds@.len() == (if terminal_width / 20 > 1 {
                terminal_width as int / 20
            } else {
                1
            }),
            forall|i: int|
                0 <= i < system.clouds@.len() ==> #[trigger] scattered(
                    system.clouds@[i],
                    terminal_width,
                    terminal_height,
                ),
            system.terminal_width == terminal_width,
            system.terminal_height == terminal_height,
    {
        let count: u16 = if terminal_width / 20 > 1 {
            terminal_width / 20
        } else {
            1
        };
        let mut clouds: Vec<Cloud> = Vec::new();
        let mut i: u16 = 0;
        while i < count
            invariant
                i <= count,
                clouds@.len() == i,
                forall|k: int|
                    0 <= k < clouds@.len() ==> #[trigger] scattered(
                        clouds@[k],
                        terminal_width,
                        terminal_height,
                    ),
            decreases count - i,
        {
            let seed = draw_cloud_seed(rng);
            let cloud = create_random_cloud(
                seed,
                terminal_width,
                terminal_height,
                true,
                Color::White,
            );
            clouds.push(cloud);
            i += 1;
        }
        CloudSystem { clouds, terminal_width, terminal_height }
    }

    /// Turns every cloud white under a clear sky and dark grey otherwise.
    pub fn set_cloud_color(&mut self, is_clear: bool)
        ensures
            final(self).clouds@ == tinted(
                old(self).clouds@,
                if is_clear {
                    Color::White
                } else {
                    Color::DarkGrey
                },
            ),
            final(self).terminal_width == old(self).terminal_width,
            final(self).terminal_height == old(self).terminal_height,
    {
        let color = if is_clear {
            Color::White
        } else {
            Color::DarkGrey
        };
        let n: usize = self.clouds.len();
        let mut i: usize = 0;
        while i < n
            invariant
                i <= n,
                n == self.clouds@.len(),
                n == old(self).clouds@.len(),
                self.terminal_width == old(self).terminal_width,
                self.terminal_height == old(self).terminal_height,
                forall|k: int|
                    0 <= k < i ==> self.clouds@[k] == (Cloud { color, ..old(self).clouds@[k] }),
                forall|k: int| i <= k < n ==> self.clouds@[k] == old(self).clouds@[k],
            decreases n - i,
        {
            self.clouds[i].color = color;
            i += 1;
        }
    }

    /// One tick with the random numbers given.
    pub fn tick(
        &mut self,
        terminal_width: u16,
        terminal_height: u16,
        is_clear: bool,
        cloud_color: Color,
        gate: u32,
        seed: CloudSeed,
    )
        ensures
            old(self).ticked(
                final(self),
                terminal_width,
                terminal_height,
                is_clear,
                cloud_color,
                gate,
                seed,
            ),
    {
        self.terminal_width = terminal_width;
        self.terminal_height = terminal_height;
        let stage = Stage { width: terminal_width, height: terminal_height };
        advance(&mut self.clouds, &stage);
        let max_clouds: usize = if is_clear {
            (terminal_width / 40) as usize
        } else {
            (terminal_width / 20) as usize
        };
        let rate: u32 = if is_clear {
            2
        } else {
            5
        };
        if self.clouds.len() < max_clouds && chance(gate, rate) {
            self.clouds.push(
                create_random_cloud(seed, terminal_width, terminal_height, false, cloud_color),
            );
        }
    }

    /// What one tick on some random numbers may make of the system.
    pub open spec fn updated(
        &self,
        next: &Self,
        terminal_width: u16,
        terminal_height: u16,
        is_clear: bool,
        cloud_color: Color,
    ) -> bool {
        exists|gate: u32, seed: CloudSeed|
            {
                &&& #[trigger] self.ticked(
                    next,
                    terminal_width,
                    terminal_height,
                    is_clear,
                    cloud_color,
                    gate,
                    seed,
                )
                &&& gate < UNIT
                &&& seed.speed < UNIT
            }
    }

    /// One tick on random numbers from `rng`; see [`CloudSystem::tick`].
    pub fn update<R: RandomSource>(
        &mut self,
        terminal_width: u16,
        terminal_height: u16,
        is_clear: bool,
        cloud_color: Color,
        rng: &mut R,
    )
        ensures
            old(self).updated(final(self), terminal_width, terminal_height, is_clear, cloud_color),
    {
        let gate = draw_unit(rng);
        let seed = draw_cloud_seed(rng);
        self.tick(terminal_width, terminal_height, is_clear, cloud_color, gate, seed);
    }

    /// The grid after the system is painted on it.
    pub open spec fn rendered(
        &self,
        cells: Seq<Cell>,
        w: int,
        h: int,
        support: ColorSupport,
    ) -> Seq<Cell> {
        clouds_painted(
            cells,
            w,
            h,
            support,
            self.clouds@,
            self.clouds@.len() as int,
        )
    }

    /// Paints the clouds; see [`clouds_painted`].
    pub fn render(&self, renderer: &mut TerminalRenderer)
        ensures
            final(renderer).same_frame(old(renderer)),
            final(renderer).cells() == self.rendered(
                old(renderer).cells(),
                old(renderer).width() as int,
                old(renderer).height() as int,
                old(renderer).support(),
            ),
    {
        let mut i: usize = 0;
        while i < self.clouds.len()
            invariant
                i <= self.clouds.len(),
                renderer.same_frame(old(renderer)),
                renderer.cells() == clouds_painted(
                    old(renderer).cells(),
                    old(renderer).width() as int,
                    old(renderer).height() as int,
                    old(renderer).support(),
                    self.clouds@,
                    i as int,
                ),
            decreases self.clouds.len() - i,
        {
            let cloud = self.clouds[i];
            let art = create_cloud_shape(cloud.shape);
            let x = cell_of(cloud.x);
            let shader = Opaque { color: cloud.color };
            renderer.stamp(&art, if x > 0 { x } else { 0 }, cell_of(cloud.y), &shader);
            i += 1;
        }
    }
}

/// A tick whose draw lets no cloud come adds none, and every cloud
/// that is left after it is alive.
pub proof fn lemma_clouds_conserved(
    now: CloudSystem,
    next: CloudSystem,
    w: u16,
    h: u16,
    is_clear: bool,
    cloud_color: Color,
    gate: u32,
    seed: CloudSeed,
)
    requires
        now.ticked(&next, w, h, is_clear, cloud_color, gate, seed),
        !hits(gate, if is_clear { 2 } else { 5 }),
    ensures
        next.clouds@.len() <= now.clouds@.len(),
        forall|i: int|
            0 <= i < next.clouds@.len() ==> (#[trigger] next.clouds@[i]).alive(
                Stage { width: w, height: h },
            ),
{
    let stage = Stage { width: w, height: h };
    lemma_survivors_conserved(now.clouds@, stage, now.clouds@.len() as int);
}

} // verus!
