//! Airplanes that cross the sky now and then.

use vstd::prelude::*;
use crate::animation::engine::{
    advance, lemma_survivors_conserved, next_generation, Particle, Stage,
};
use crate::fixed::{
    cell, cell_of, chance, clamp_u16, hits, plus, sat_add, scale, scaled, to_u16, UNIT,
};
use crate::random::{draw_u16, draw_unit, RandomSource};
use crate::render::capabilities::ColorSupport;
use crate::render::color::Color;
use crate::render::grid::{Cell, TerminalRenderer};
use crate::render::stamp::{stamped, str_rows, Shader};

verus! {

/// One airplane. Positions and the speed are thousandths of a cell.
#[derive(Clone, Copy, Debug)]
pub struct Airplane {
    pub x: i64,
    pub y: i64,
    pub speed: i64,
}

/// The random numbers that make one airplane and set the pause after it.
#[derive(Clone, Copy, Debug)]
pub struct PlaneSeed {
    /// Decides the row.
    pub row: u16,
    /// A fraction that is added to the speed.
    pub speed: u32,
    /// Decides the pause before the next airplane.
    pub pause: u16,
}

/// The picture of an airplane.
pub open spec fn airplane_art() -> Seq<&'static str> {
    seq![
        "           _",
        "         -=\\`\\",
        "     |\\ ____\\_\\__",
        "   -=\\c`\"\"\"\"\"\"\" \"`)",
        "      `~~~~~/ /~~`",
        "        -==/ /",
        "          '-'",
    ]
}

/// The colours of an airplane: glass, fins, metal and exhaust.
pub struct AirplaneShader;

impl Shader for AirplaneShader {
    open spec fn shade_spec(&self, row: int, ch: char) -> Option<Cell> {
        if ch == ' ' {
            None
        } else {
            Some(
                Cell {
                    character: ch,
                    color: if ch == '"' {
                        Color::Cyan
                    } else if ch == '\\' {
                        Color::Blue
                    } else if ch == '_' {
                        Color::DarkGrey
                    } else if ch == '~' {
                        Color::Grey
                    } else {
                        Color::White
                    },
                },
            )
        }
    }

    fn shade(&self, row: usize, ch: char) -> (out: Option<Cell>) {
        if ch == ' ' {
            None
        } else {
            let color = match ch {
                '"' => Color::Cyan,
                '\\' => Color::Blue,
                '_' => Color::DarkGrey,
                '~' => Color::Grey,
                _ => Color::White,
            };
            Some(Cell { character: ch, color })
        }
    }
}

/// The airplane that a seed makes: at the left edge, in the upper quarter.
pub open spec fn new_plane(seed: PlaneSeed, h: u16) -> Airplane {
    let rows: int = if h / 4 > 1 { h as int / 4 } else { 1 };
    Airplane {
        x: 0,
        y: ((seed.row as int % rows) * 1000) as i64,
        speed: (300 + scaled(seed.speed, 200)) as i64,
    }
}

impl Particle<Stage> for Airplane {
    open spec fn stepped(self, stage: Stage) -> Airplane {
        Airplane { x: plus(self.x, self.speed), ..self }
    }

    open spec fn alive(self, stage: Stage) -> bool {
        self.x < stage.width * 1000
    }

    fn step(&mut self, stage: &Stage) {
        self.x = sat_add(self.x, self.speed);
    }

    fn is_alive(&self, stage: &Stage) -> (alive: bool) {
        self.x < (stage.width as i64) * 1000
    }
}

/// The airplanes.
pub struct AirplaneSystem {
    pub planes: Vec<Airplane>,
    pub terminal_width: u16,
    pub terminal_height: u16,
    /// Ticks before another airplane may come.
    pub spawn_cooldown: u16,
}

/// The grid after the first `n` airplanes are painted on it.
pub open spec fn planes_painted(
    cells: Seq<Cell>,
    w: int,
    h: int,
    support: ColorSupport,
    planes: Seq<Airplane>,
    n: int,
) -> Seq<Cell>
    decreases n,
{
    if n <= 0 {
        cells
    } else {
        stamped(
            planes_painted(cells, w, h, support, planes, n - 1),
            w,
            h,
            support,
            AirplaneShader,
            str_rows(airplane_art()),
            clamp_u16(cell(planes[n - 1].x) as int) as int,
            clamp_u16(cell(planes[n - 1].y) as int) as int,
            7,
        )
    }
}

impl AirplaneSystem {
    /// Whether a tick lets an airplane come: once the pause is over,
    /// one time in a thousand.
    pub open spec fn comes(&self, gate: u32) -> bool {
        self.spawn_cooldown <= 1 && hits(gate, 1)
    }

    /// What a tick with the given random numbers makes of the
    /// airplanes: every one flies on, those past the right edge go, the
    /// pause runs down, and when one comes the pause is set to 600 to
    /// 899 ticks.
    pub open spec fn ticked(
        &self,
        next: &AirplaneSystem,
        w: u16,
        h: u16,
        gate: u32,
        seed: PlaneSeed,
    ) -> bool {
        let left = next_generation(self.planes@, Stage { width: w, height: h });
        &&& next.terminal_width == w
        &&& next.terminal_height == h
        &&& next.planes@ == if self.comes(gate) {
            left.push(new_plane(seed, h))
        } else {
            left
        }
        &&& next.spawn_cooldown == if self.comes(gate) {
            600 + seed.pause % 300
        } else if self.spawn_cooldown >= 1 {
            self.spawn_cooldown - 1
        } else {
            0
        }
    }

    /// A sky without airplanes.
    pub fn new(terminal_width: u16, terminal_height: u16) -> (system: AirplaneSystem)
        ensures
            system.planes@.len() == 0,
            system.terminal_width == terminal_width,
            system.terminal_height == terminal_height,
            system.spawn_cooldown == 0,
    {
        AirplaneSystem { planes: Vec::new(), terminal_width, terminal_height, spawn_cooldown: 0 }
    }

    /// Adds the airplane of a seed.
    pub fn spawn_plane(&mut self, seed: PlaneSeed)
        ensures
            final(self).planes@ == old(self).planes@.push(
                new_plane(seed, old(self).terminal_height),
            ),
            final(self).terminal_width == old(self).terminal_width,
            final(self).terminal_height == old(self).terminal_height,
            final(self).spawn_cooldown == old(self).spawn_cooldown,
    {
        let rows: u16 = if self.terminal_height / 4 > 1 {
            self.terminal_height / 4
        } else {
            1
        };
        self.planes.push(
            Airplane {
                x: 0,
                y: ((seed.row % rows) as i64) * 1000,
                speed: 300 + scale(seed.speed, 200),
            },
        );
    }

    /// One tick with the random numbers given.
    pub fn tick(&mut self, terminal_width: u16, terminal_height: u16, gate: u32, seed: PlaneSeed)
        ensures
            old(self).ticked(final(self), terminal_width, terminal_height, gate, seed),
    {
        self.terminal_width = terminal_width;
        self.terminal_height = terminal_height;
        let stage = Stage { width: terminal_width, height: terminal_height };
        advance(&mut self.planes, &stage);
        if self.spawn_cooldown >= 1 {
            self.spawn_cooldown = self.spawn_cooldown - 1;
        }
        if self.spawn_cooldown == 0 && chance(gate, 1) {
            self.spawn_plane(seed);
            self.spawn_cooldown = 600 + seed.pause % 300;
        }
    }

    /// What one tick on some random numbers may make of the system.
    pub open spec fn updated(
        &self,
        next: &Self,
        terminal_width: u16,
        terminal_height: u16,
    ) -> bool {
        exists|gate: u32, seed: PlaneSeed|
            {
                &&& #[trigger] self.ticked(next, terminal_width, terminal_height, gate, seed)
                &&& gate < UNIT
                &&& seed.speed < UNIT
            }
    }

    /// One tick on random numbers from `rng`; see [`AirplaneSystem::tick`].
    pub fn update<R: RandomSource>(
        &mut self,
        terminal_width: u16,
        terminal_height: u16,
        rng: &mut R,
    )
        ensures
            old(self).updated(final(self), terminal_width, terminal_height),
    {
        let gate = draw_unit(rng);
        let row = draw_u16(rng);
        let speed = draw_unit(rng);
        let pause = draw_u16(rng);
        self.tick(terminal_width, terminal_height, gate, PlaneSeed { row, speed, pause });
    }

    /// The grid after the system is painted on it.
    pub open spec fn rendered(
        &self,
        cells: Seq<Cell>,
        w: int,
        h: int,
        support: ColorSupport,
    ) -> Seq<Cell> {
        planes_painted(
            cells,
            w,
            h,
            support,
            self.planes@,
            self.planes@.len() as int,
        )
    }

    /// Paints the airplanes.
    pub fn render(&self, renderer: &mut TerminalRenderer)
        ensures
            final(renderer).same_frame(old(renderer)),
            final(renderer).cells() == self.rendered(
                old(renderer).cells(),
                old(renderer).width() as int,
                old(renderer).height() as int,
                old(renderer).support(),
            ),
    {
        let art = vec![
            "           _",
            "         -=\\`\\",
            "     |\\ ____\\_\\__",
            "   -=\\c`\"\"\"\"\"\"\" \"`)",
            "      `~~~~~/ /~~`",
            "        -==/ /",
            "          '-'",
        ];
        let shader = AirplaneShader;
        let mut i: usize = 0;
        while i < self.planes.len()
            invariant
                i <= self.planes.len(),
                art@ == airplane_art(),
                renderer.same_frame(old(renderer)),
                renderer.cells() == planes_painted(
                    old(renderer).cells(),
                    old(renderer).width() as int,
                    old(renderer).height() as int,
                    old(renderer).support(),
                    self.planes@,
                    i as int,
                ),
            decreases self.planes.len() - i,
        {
            let plane = self.planes[i];
            let x = to_u16(cell_of(plane.x));
            let y = to_u16(cell_of(plane.y));
            renderer.stamp(&art, x as i64, y as i64, &shader);
            i += 1;
        }
    }
}

/// A tick whose draw lets no airplane come adds none, and every airplane
/// that is left after it is alive.
pub proof fn lemma_planes_conserved(
    now: AirplaneSystem,
    next: AirplaneSystem,
    w: u16,
    h: u16,
    gate: u32,
    seed: PlaneSeed,
)
    requires
        now.ticked(&next, w, h, gate, seed),
        !hits(gate, 1),
    ensures
        next.planes@.len() <= now.planes@.len(),
        forall|i: int|
            0 <= i < next.planes@.len() ==> (#[trigger] next.planes@[i]).alive(
                Stage { width: w, height: h },
            ),
{
    let stage = Stage { width: w, height: h };
    lemma_survivors_conserved(now.planes@, stage, now.planes@.len() as int);
}

} // verus!
