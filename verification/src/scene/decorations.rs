//! What stands in the garden: a tree, a fence, a mailbox and a pine.

use vstd::prelude::*;
use crate::fixed::less;
use crate::render::capabilities::ColorSupport;
use crate::render::color::Color;
use crate::render::grid::{Cell, TerminalRenderer};
use crate::render::stamp::{stamped, str_rows, Solid};

verus! {

/// What stands around the house: a tree, a fence, a mailbox and, on a
/// wide terminal, a pine.
#[derive(Default)]
pub struct Decorations;

/// Where the decorations go.
pub struct DecorationRenderConfig {
    pub horizon_y: u16,
    pub house_x: u16,
    pub house_width: u16,
    pub width: u16,
    pub is_day: bool,
}

/// The picture of the tree.
pub open spec fn tree_art() -> Seq<&'static str> {
    seq![
        "      ####      ",
        "    ########    ",
        "   ##########   ",
        "    ########    ",
        "      _||_      ",
    ]
}

/// The picture of the fence.
pub open spec fn fence_art() -> Seq<&'static str> {
    seq!["|--|--|--|--|", "|  |  |  |  |"]
}

/// The picture of the mailbox.
pub open spec fn mailbox_art() -> Seq<&'static str> {
    seq![" ___ ", "|___|", "  |  "]
}

/// The picture of the pine.
pub open spec fn pine_art() -> Seq<&'static str> {
    seq!["    *    ", "   ***   ", "  *****  ", " ******* ", "   |||   "]
}

/// The green of the trees.
pub open spec fn foliage(is_day: bool) -> Color {
    if is_day {
        Color::DarkGreen
    } else {
        Color::Rgb { r: 0, g: 50, b: 0 }
    }
}

/// The colour of the fence.
pub open spec fn fence_color(is_day: bool) -> Color {
    if is_day {
        Color::White
    } else {
        Color::Grey
    }
}

/// The colour of the mailbox.
pub open spec fn mailbox_color(is_day: bool) -> Color {
    if is_day {
        Color::Blue
    } else {
        Color::DarkBlue
    }
}

/// The grid with a piece of art in one colour standing on the horizon
/// with its left edge in column `x`.
pub open spec fn planted(
    cells: Seq<Cell>,
    w: int,
    h: int,
    support: ColorSupport,
    art: Seq<&'static str>,
    color: Color,
    x: int,
    horizon_y: int,
) -> Seq<Cell> {
    stamped(
        cells,
        w,
        h,
        support,
        Solid { color },
        str_rows(art),
        x,
        less(horizon_y, art.len() as int),
        art.len() as int,
    )
}

/// The grid with the decorations on it: the tree twenty columns left
/// of the house unless that is the terminal's edge, the fence two
/// columns right of the house where the terminal reaches that far, the
/// mailbox ten columns left of the tree, and on a terminal wider than
/// 120 columns a pine eighteen columns right of the house if ten more
/// columns fit.
pub open spec fn decorated(
    cells: Seq<Cell>,
    w: int,
    h: int,
    support: ColorSupport,
    config: DecorationRenderConfig,
) -> Seq<Cell> {
    let tree_x = less(config.house_x as int, 20);
    let fence_x = config.house_x + config.house_width + 2;
    let mailbox_x = less(tree_x, 10);
    let pine_x = config.house_x + config.house_width + 18;
    let horizon = config.horizon_y as int;
    let with_tree = if tree_x > 0 {
        planted(cells, w, h, support, tree_art(), foliage(config.is_day), tree_x, horizon)
    } else {
        cells
    };
    let with_fence = if fence_x < config.width {
        planted(with_tree, w, h, support, fence_art(), fence_color(config.is_day), fence_x, horizon)
    } else {
        with_tree
    };
    let with_mailbox = if mailbox_x < config.width {
        planted(
            with_fence,
            w,
            h,
            support,
            mailbox_art(),
            mailbox_color(config.is_day),
            mailbox_x,
            horizon,
        )
    } else {
        with_fence
    };
    if config.width > 120 && pine_x + 10 < config.width {
        planted(with_mailbox, w, h, support, pine_art(), foliage(config.is_day), pine_x, horizon)
    } else {
        with_mailbox
    }
}

impl Decorations {
    /// The garden.
    pub fn new() -> Decorations {
        Decorations
    }

    fn get_tree(&self, is_day: bool) -> (out: (Vec<&'static str>, Color))
        ensures
            out.0@ == tree_art(),
            out.1 == foliage(is_day),
    {
        let art = vec![
            "      ####      ",
            "    ########    ",
            "   ##########   ",
            "    ########    ",
            "      _||_      ",
        ];
        (
            art,
            if is_day {
                Color::DarkGreen
            } else {
                Color::Rgb { r: 0, g: 50, b: 0 }
            },
        )
    }

    fn get_fence(&self, is_day: bool) -> (out: (Vec<&'static str>, Color))
        ensures
            out.0@ == fence_art(),
            out.1 == fence_color(is_day),
    {
        let art = vec!["|--|--|--|--|", "|  |  |  |  |"];
        (
            art,
            if is_day {
                Color::White
            } else {
                Color::Grey
            },
        )
    }

    fn get_mailbox(&self, is_day: bool) -> (out: (Vec<&'static str>, Color))
        ensures
            out.0@ == mailbox_art(),
            out.1 == mailbox_color(is_day),
    {
        let art = vec![" ___ ", "|___|", "  |  "];
        (
            art,
            if is_day {
                Color::Blue
            } else {
                Color::DarkBlue
            },
        )
    }

    fn get_pine_tree(&self, is_day: bool) -> (out: (Vec<&'static str>, Color))
        ensures
            out.0@ == pine_art(),
            out.1 == foliage(is_day),
    {
        let art = vec!["    *    ", "   ***   ", "  *****  ", " ******* ", "   |||   "];
        (
            art,
            if is_day {
                Color::DarkGreen
            } else {
                Color::Rgb { r: 0, g: 50, b: 0 }
            },
        )
    }

    fn plant(
        renderer: &mut TerminalRenderer,
        art: &Vec<&'static str>,
        color: Color,
        x: u32,
        horizon_y: u16,
    )
        requires
            art@.len() <= 16,
        ensures
            final(renderer).same_frame(old(renderer)),
            final(renderer).cells() == planted(
                old(renderer).cells(),
                old(renderer).width() as int,
                old(renderer).height() as int,
                old(renderer).support(),
                art@,
                color,
                x as int,
                horizon_y as int,
            ),
    {
        let rows: u16 = art.len() as u16;
        let y: u16 = if horizon_y >= rows {
            horizon_y - rows
        } else {
            0
        };
        let shader = Solid { color };
        renderer.stamp(art, x as i64, y as i64, &shader);
    }

    /// Paints the decorations; see [`decorated`].
    pub fn render(&self, renderer: &mut TerminalRenderer, config: &DecorationRenderConfig)
        ensures
            final(renderer).same_frame(old(renderer)),
            final(renderer).cells() == decorated(
                old(renderer).cells(),
                old(renderer).width() as int,
                old(renderer).height() as int,
                old(renderer).support(),
                *config,
            ),
    {
        let tree_x: u32 = if config.house_x >= 20 {
            (config.house_x - 20) as u32
        } else {
            0
        };
        if tree_x > 0 {
            let (lines, color) = self.get_tree(config.is_day);
            Self::plant(renderer, &lines, color, tree_x, config.horizon_y);
        }
        let fence_x: u32 = config.house_x as u32 + config.house_width as u32 + 2;
        if fence_x < config.width as u32 {
            let (lines, color) = self.get_fence(config.is_day);
            Self::plant(renderer, &lines, color, fence_x, config.horizon_y);
        }
        let mailbox_x: u32 = if tree_x >= 10 {
            tree_x - 10
        } else {
            0
        };
        if mailbox_x < config.width as u32 {
            let (lines, color) = self.get_mailbox(config.is_day);
            Self::plant(renderer, &lines, color, mailbox_x, config.horizon_y);
        }
        if config.width > 120 {
            let pine_x: u32 = config.house_x as u32 + config.house_width as u32 + 18;
            if pine_x + 10 < config.width as u32 {
                let (lines, color) = self.get_pine_tree(config.is_day);
                Self::plant(renderer, &lines, color, pine_x, config.horizon_y);
            }
        }
    }
}

} // verus!
