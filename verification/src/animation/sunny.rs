//! The sun, in two pictures that take turns.

use vstd::prelude::*;
use vstd::string::StringExecFns;
use crate::animation::Animation;
use crate::render::color::Color;
use crate::render::stamp::string_rows;

verus! {

/// The sun.
pub struct SunnyAnimation {
    frames: Vec<Vec<String>>,
}

/// The first picture of the sun.
pub open spec fn sun_frame_1() -> Seq<Seq<char>> {
    seq![
        "      ;   :   ;"@,
        "   .   \\_,!,_/   ,"@,
        "    `.,'     `.,'"@,
        "     /         \\"@,
        "~ -- :         : -- ~"@,
        "     \\         /"@,
        "    ,'`._   _.'`."@,
        "   '   / `!` \\   `"@,
        "      ;   :   ;"@,
    ]
}

/// The second picture of the sun.
pub open spec fn sun_frame_2() -> Seq<Seq<char>> {
    seq![
        "      .   |   ."@,
        "   ;   \\_,|,_/   ;"@,
        "    `.,'     `.,'"@,
        "     /         \\"@,
        "~ -- |         | -- ~"@,
        "     \\         /"@,
        "    ,'`._   _.'`."@,
        "   ;   / `|` \\   ;"@,
        "      .   |   ."@,
    ]
}

impl SunnyAnimation {
    /// The pictures, each as its lines.
    pub closed spec fn pictures(&self) -> Seq<Seq<Seq<char>>> {
        Seq::new(self.frames@.len(), |i: int| string_rows(self.frames@[i]@))
    }

    #[verifier::type_invariant]
    spec fn has_frames(self) -> bool {
        self.frames@.len() > 0
    }

    /// The sun with its two pictures.
    pub fn new() -> (sun: SunnyAnimation)
        ensures
            sun.pictures() == seq![sun_frame_1(), sun_frame_2()],
    {
        let mut frames: Vec<Vec<String>> = Vec::new();
        frames.push(Self::create_frame_1());
        frames.push(Self::create_frame_2());
        let sun = SunnyAnimation { frames };
        sun
    }

    /// The first picture of the sun.
    pub fn create_frame_1() -> (frame: Vec<String>)
        ensures
            string_rows(frame@) == sun_frame_1(),
    {
        let mut frame: Vec<String> = Vec::new();
        frame.push(String::from_str("      ;   :   ;"));
        frame.push(String::from_str("   .   \\_,!,_/   ,"));
        frame.push(String::from_str("    `.,'     `.,'"));
        frame.push(String::from_str("     /         \\"));
        frame.push(String::from_str("~ -- :         : -- ~"));
        frame.push(String::from_str("     \\         /"));
        frame.push(String::from_str("    ,'`._   _.'`."));
        frame.push(String::from_str("   '   / `!` \\   `"));
        frame.push(String::from_str("      ;   :   ;"));
        frame
    }

    /// The second picture of the sun.
    pub fn create_frame_2() -> (frame: Vec<String>)
        ensures
            string_rows(frame@) == sun_frame_2(),
    {
        let mut frame: Vec<String> = Vec::new();
        frame.push(String::from_str("      .   |   ."));
        frame.push(String::from_str("   ;   \\_,|,_/   ;"));
        frame.push(String::from_str("    `.,'     `.,'"));
        frame.push(String::from_str("     /         \\"));
        frame.push(String::from_str("~ -- |         | -- ~"));
        frame.push(String::from_str("     \\         /"));
        frame.push(String::from_str("    ,'`._   _.'`."));
        frame.push(String::from_str("   ;   / `|` \\   ;"));
        frame.push(String::from_str("      .   |   ."));
        frame
    }
}

impl Animation for SunnyAnimation {
    open spec fn frames_spec(&self) -> Seq<Seq<Seq<char>>> {
        self.pictures()
    }

    open spec fn color_spec(&self) -> Color {
        Color::Yellow
    }

    fn get_frame(&self, frame_number: usize) -> (frame: &[String]) {
        proof {
            use_type_invariant(self);
        }
        let frame = &self.frames[frame_number % self.frames.len()];
        frame.as_slice()
    }

    fn frame_count(&self) -> (count: usize) {
        proof {
            use_type_invariant(self);
        }
        self.frames.len()
    }

    fn get_color(&self) -> (color: Color) {
        Color::Yellow
    }
}

impl Default for SunnyAnimation {
    fn default() -> (sun: SunnyAnimation)
        ensures
            sun.pictures() == seq![sun_frame_1(), sun_frame_2()],
    {
        SunnyAnimation::new()
    }
}

} // verus!
