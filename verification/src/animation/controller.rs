//! Pictures that take turns, and the counter that says whose turn it is.

use vstd::prelude::*;
use crate::render::color::Color;
use crate::render::capabilities::ColorSupport;
use crate::render::grid::{Cell, TerminalRenderer};
use crate::render::stamp::{centered_column, stamped, string_rows, widest, Opaque};

verus! {

/// A fixed set of pictures in one colour. There is at least one.
pub trait Animation {
    /// The pictures, each as its lines.
    spec fn frames_spec(&self) -> Seq<Seq<Seq<char>>>;

    /// The colour of the pictures.
    spec fn color_spec(&self) -> Color;

    /// The picture whose turn it is at `frame_number`, counting round
    /// and round.
    fn get_frame(&self, frame_number: usize) -> (frame: &[String])
        ensures
            self.frames_spec().len() > 0,
            string_rows(frame@) == self.frames_spec()[frame_number as int % (
            self.frames_spec().len() as int)],
    ;

    fn frame_count(&self) -> (count: usize)
        ensures
            count == self.frames_spec().len(),
            count > 0,
    ;

    fn get_color(&self) -> (color: Color)
        ensures
            color == self.color_spec(),
    ;
}

/// The grid with a picture painted on it in one colour, spaces
/// included, centred, from row `y` down.
pub open spec fn sun_painted(
    cells: Seq<Cell>,
    w: int,
    h: int,
    support: ColorSupport,
    picture: Seq<Seq<char>>,
    color: Color,
    y: int,
) -> Seq<Cell> {
    stamped(
        cells,
        w,
        h,
        support,
        Opaque { color },
        picture,
        centered_column(w, widest(picture, picture.len() as int)),
        y,
        picture.len() as int,
    )
}

/// Says which picture of an animation is shown.
pub struct AnimationController {
    current_frame: usize,
}

impl AnimationController {
    /// The picture that is shown, counted from 0.
    pub closed spec fn current(&self) -> usize {
        self.current_frame
    }

    /// A controller that shows the first picture.
    pub fn new() -> (controller: AnimationController)
        ensures
            controller.current() == 0,
    {
        AnimationController { current_frame: 0 }
    }

    /// Goes on to the next picture, and from the last to the first.
    pub fn next_frame<A: Animation>(&mut self, animation: &A) -> (shown: usize)
        ensures
            shown == final(self).current(),
            final(self).current() == (old(self).current() as int % (
            animation.frames_spec().len() as int) + 1) % (animation.frames_spec().len() as int),
    {
        let count = animation.frame_count();
        self.current_frame = (self.current_frame % count + 1) % count;
        self.current_frame
    }

    /// Paints the picture that is shown, centred, from row `y_offset`
    /// down.
    pub fn render_frame<A: Animation>(
        &self,
        renderer: &mut TerminalRenderer,
        animation: &A,
        y_offset: u16,
    )
        ensures
            final(renderer).same_frame(old(renderer)),
            final(renderer).cells() == sun_painted(
                old(renderer).cells(),
                old(renderer).width() as int,
                old(renderer).height() as int,
                old(renderer).support(),
                animation.frames_spec()[self.current() as int % (
                animation.frames_spec().len() as int)],
                animation.color_spec(),
                y_offset as int,
            ),
    {
        let frame = animation.get_frame(self.current_frame);
        let color = animation.get_color();
        renderer.render_centered_colored(frame, y_offset, color);
    }

    /// Goes back to the first picture.
    pub fn reset(&mut self)
        ensures
            final(self).current() == 0,
    {
        self.current_frame = 0;
    }
}

impl Default for AnimationController {
    fn default() -> (controller: AnimationController)
        ensures
            controller.current() == 0,
    {
        AnimationController::new()
    }
}

} // verus!
