//! The static backdrop as a whole: ground, house and garden.

use vstd::prelude::*;
use crate::render::capabilities::ColorSupport;
use crate::render::grid::{Cell, TerminalRenderer};
use crate::render::stamp::{stamped, str_rows};
use crate::fixed::less;
use crate::scene::decorations::{decorated, DecorationRenderConfig, Decorations};
use crate::scene::ground::{ground_painted, Ground};
use crate::scene::house::{house_art, House, HouseShader};
use crate::weather::types::WeatherConditions;

verus! {

/// The whole backdrop on a terminal of a given size.
pub struct WorldScene {
    house: House,
    ground: Ground,
    decorations: Decorations,
    width: u16,
    height: u16,
}

/// The row where the ground begins on a terminal `height` rows high.
pub open spec fn horizon(height: u16) -> int {
    less(height as int, 7)
}

/// The column of the house's left edge on a terminal `width` wide: the
/// house stands in the middle.
pub open spec fn house_column(width: u16) -> int {
    less(width as int / 2, 32)
}

/// The grid with the backdrop on it: the ground, over it the house with
/// its foot on the horizon, and over both the decorations.
pub open spec fn scenery(
    cells: Seq<Cell>,
    w: int,
    h: int,
    support: ColorSupport,
    width: u16,
    height: u16,
    is_day: bool,
) -> Seq<Cell> {
    let horizon_y = horizon(height);
    let house_x = house_column(width);
    let with_ground = ground_painted(cells, w, h, support, width, horizon_y as u16, is_day, 7);
    let with_house = stamped(
        with_ground,
        w,
        h,
        support,
        HouseShader { is_day },
        str_rows(house_art()),
        house_x,
        less(horizon_y, 13),
        13,
    );
    decorated(
        with_house,
        w,
        h,
        support,
        DecorationRenderConfig {
            horizon_y: horizon_y as u16,
            house_x: house_x as u16,
            house_width: 64,
            width,
            is_day,
        },
    )
}

impl WorldScene {
    /// Rows that the ground takes up.
    pub const GROUND_HEIGHT: u16 = 7;

    /// The width that the backdrop is laid out for.
    pub closed spec fn width(&self) -> u16 {
        self.width
    }

    /// The height that the backdrop is laid out for.
    pub closed spec fn height(&self) -> u16 {
        self.height
    }

    /// The backdrop for a terminal of `width` by `height` cells.
    pub fn new(width: u16, height: u16) -> (scene: WorldScene)
        ensures
            scene.width() == width,
            scene.height() == height,
    {
        WorldScene {
            house: House,
            ground: Ground,
            decorations: Decorations::new(),
            width,
            height,
        }
    }

    /// Lays the backdrop out for a new terminal size.
    pub fn update_size(&mut self, width: u16, height: u16)
        ensures
            final(self).width() == width,
            final(self).height() == height,
    {
        self.width = width;
        self.height = height;
    }

    /// The grid after the system is painted on it.
    pub open spec fn rendered(
        &self,
        cells: Seq<Cell>,
        w: int,
        h: int,
        support: ColorSupport,
        is_day: bool,
    ) -> Seq<Cell> {
        scenery(
            cells,
            w,
            h,
            support,
            self.width(),
            self.height(),
            is_day,
        )
    }

    /// Paints the backdrop; see [`scenery`].
    pub fn render(&self, renderer: &mut TerminalRenderer, conditions: &WeatherConditions)
        ensures
            final(renderer).same_frame(old(renderer)),
            final(renderer).cells() == self.rendered(
                old(renderer).cells(),
                old(renderer).width() as int,
                old(renderer).height() as int,
                old(renderer).support(), conditions.is_day,
            ),
    {
        let horizon_y: u16 = if self.height >= Self::GROUND_HEIGHT {
            self.height - Self::GROUND_HEIGHT
        } else {
            0
        };
        let house_width = self.house.width();
        let house_height = self.house.height();
        let half: u16 = self.width / 2;
        let house_x: u16 = if half >= house_width / 2 {
            half - house_width / 2
        } else {
            0
        };
        let house_y: u16 = if horizon_y >= house_height {
            horizon_y - house_height
        } else {
            0
        };
        self.ground.render(renderer, self.width, Self::GROUND_HEIGHT, horizon_y, conditions.is_day);
        self.house.render(renderer, house_x, house_y, conditions.is_day);
        let config = DecorationRenderConfig {
            horizon_y,
            house_x,
            house_width,
            width: self.width,
            is_day: conditions.is_day,
        };
        self.decorations.render(renderer, &config);
    }
}

} // verus!
