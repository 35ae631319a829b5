//! Where the simulation gets its randomness.
//!
//! Every system draws from a source that the caller hands in, so that one
//! generator serves a whole frame and a run can be repeated from a list
//! of draws.

use vstd::prelude::*;

verus! {

/// `rand::rngs::ThreadRng`, carried along as it comes.
#[verifier::external_type_specification]
#[verifier::external_body]
pub struct ExThreadRng(rand::rngs::ThreadRng);

/// A source of random 32-bit words.
///
/// A source may know the words that it will hand out, as one that
/// repeats a list does; then it hands out just those. Of a word that is
/// not foretold nothing is promised.
pub trait RandomSource {
    /// The word that comes after `k` others, where the source knows it.
    spec fn foretold(&self, k: nat) -> Option<u32>;

    /// Hands out the next word: the one foretold, where one is. What was
    /// foretold to come after it comes next.
    fn next_u32(&mut self) -> (word: u32)
        ensures
            old(self).foretold(0) matches Some(known) ==> word == known,
            forall|k: nat| #[trigger] final(self).foretold(k) == old(self).foretold(k + 1),
    ;
}

/// `RngExt::random::<u32>` on the thread-local generator: one word of
/// its output. Nothing is claimed of the word.
#[verifier::external_body]
fn thread_word(rng: &mut rand::rngs::ThreadRng) -> u32 {
    rand::RngExt::random::<u32>(rng)
}

/// The thread-local generator of the `rand` crate as a source. None of
/// its words is foretold.
pub struct ThreadSource {
    rng: rand::rngs::ThreadRng,
}

impl ThreadSource {
    /// The handle to the generator that the source draws from.
    pub closed spec fn generator(&self) -> rand::rngs::ThreadRng {
        self.rng
    }

    /// Wraps a handle to the thread-local generator.
    pub fn new(rng: rand::rngs::ThreadRng) -> (source: ThreadSource)
        ensures
            source.generator() == rng,
    {
        ThreadSource { rng }
    }
}

impl RandomSource for ThreadSource {
    open spec fn foretold(&self, k: nat) -> Option<u32> {
        None
    }

    fn next_u32(&mut self) -> (word: u32) {
        thread_word(&mut self.rng)
    }
}

/// A source that hands out a given list of words over and over.
pub struct ScriptedSource {
    words: Vec<u32>,
    at: usize,
}

/// The word that a list hands out `k` places after place `at`, where it
/// starts again after its last word; zero for a list without words.
pub open spec fn word_at(script: Seq<u32>, at: int, k: nat) -> u32 {
    if script.len() == 0 {
        0
    } else {
        script[((if at < script.len() {
            at
        } else {
            0
        }) + k) % (script.len() as int)]
    }
}

impl ScriptedSource {
    /// The list of words that the source repeats.
    pub closed spec fn script(&self) -> Seq<u32> {
        self.words@
    }

    /// The place in the list of the next word.
    pub closed spec fn position(&self) -> int {
        self.at as int
    }

    /// A source that repeats `words`; with no words it hands out zeros.
    pub fn new(words: Vec<u32>) -> (source: ScriptedSource)
        ensures
            source.script() == words@,
            source.position() == 0,
    {
        ScriptedSource { words, at: 0 }
    }

    /// The next word of the list.
    pub fn next_word(&mut self) -> (word: u32)
        ensures
            final(self).script() == old(self).script(),
            word == word_at(old(self).script(), old(self).position(), 0),
            old(self).script().len() == 0 ==> final(self).position() == old(self).position(),
            old(self).script().len() > 0 ==> {
                let len = old(self).script().len() as int;
                let at = if old(self).position() < len {
                    old(self).position()
                } else {
                    0
                };
                final(self).position() == if at + 1 == len {
                    0
                } else {
                    at + 1
                }
            },
            forall|k: nat| #[trigger]
                word_at(final(self).script(), final(self).position(), k) == word_at(
                    old(self).script(),
                    old(self).position(),
                    k + 1,
                ),
    {
        if self.words.len() == 0 {
            return 0;
        }
        if self.at >= self.words.len() {
            self.at = 0;
        }
        let ghost len = self.words@.len() as int;
        let ghost at = self.at as int;
        let word = self.words[self.at];
        self.at = if self.at + 1 == self.words.len() {
            0
        } else {
            self.at + 1
        };
        proof {
            assert(at % len == at) by (nonlinear_arith)
                requires
                    0 <= at < len,
            ;
            assert forall|k: nat| #[trigger]
                word_at(self.words@, self.at as int, k) == word_at(
                    old(self).words@,
                    old(self).at as int,
                    k + 1,
                ) by {
                if at + 1 == len {
                    let j = k as int;
                    assert(j % len == (at + (j + 1)) % len) by (nonlinear_arith)
                        requires
                            at + 1 == len,
                            len > 0,
                            j >= 0,
                    ;
                }
            }
        }
        word
    }
}

impl RandomSource for ScriptedSource {
    open spec fn foretold(&self, k: nat) -> Option<u32> {
        Some(word_at(self.script(), self.position(), k))
    }

    fn next_u32(&mut self) -> (word: u32) {
        self.next_word()
    }
}

/// The fraction that a word stands for: its upper 24 bits, as a whole
/// number of 2^24ths.
pub fn unit_of(word: u32) -> (draw: u32)
    ensures
        draw == word / 256,
        draw < crate::fixed::UNIT,
{
    word / 256
}

/// The truth value that a word stands for: its top bit.
pub fn bool_of(word: u32) -> (draw: bool)
    ensures
        draw == (word >= 0x8000_0000),
{
    word >= 0x8000_0000
}

/// The 16-bit number that a word stands for: its lower half.
pub fn u16_of(word: u32) -> (draw: u16)
    ensures
        draw == word % 65536,
{
    (word % 65536) as u16
}

/// The signed byte that a word stands for: its lowest byte, where 128
/// and more stand for the negative numbers.
pub fn i8_of(word: u32) -> (draw: i8)
    ensures
        word % 256 < 128 ==> draw == word % 256,
        word % 256 >= 128 ==> draw == word % 256 - 256,
{
    let low: u32 = word % 256;
    if low < 128 {
        low as i8
    } else {
        (low as i32 - 256) as i8
    }
}

/// A random fraction, a whole number of 2^24ths below one: one word is
/// taken from the source and cut by [`unit_of`].
pub fn draw_unit<R: RandomSource>(rng: &mut R) -> (draw: u32)
    ensures
        draw < crate::fixed::UNIT,
        old(rng).foretold(0) matches Some(word) ==> draw == word / 256,
        forall|k: nat| #[trigger] final(rng).foretold(k) == old(rng).foretold(k + 1),
{
    unit_of(rng.next_u32())
}

/// A random truth value: one word is taken from the source and cut by
/// [`bool_of`].
pub fn draw_bool<R: RandomSource>(rng: &mut R) -> (draw: bool)
    ensures
        old(rng).foretold(0) matches Some(word) ==> draw == (word >= 0x8000_0000),
        forall|k: nat| #[trigger] final(rng).foretold(k) == old(rng).foretold(k + 1),
{
    bool_of(rng.next_u32())
}

/// A random 16-bit number: one word is taken from the source and cut by
/// [`u16_of`].
pub fn draw_u16<R: RandomSource>(rng: &mut R) -> (draw: u16)
    ensures
        old(rng).foretold(0) matches Some(word) ==> draw == word % 65536,
        forall|k: nat| #[trigger] final(rng).foretold(k) == old(rng).foretold(k + 1),
{
    u16_of(rng.next_u32())
}

/// A random signed byte: one word is taken from the source and cut by
/// [`i8_of`].
pub fn draw_i8<R: RandomSource>(rng: &mut R) -> (draw: i8)
    ensures
        old(rng).foretold(0) matches Some(word) ==> draw == if word % 256 < 128 {
            word as int % 256
        } else {
            word as int % 256 - 256
        },
        forall|k: nat| #[trigger] final(rng).foretold(k) == old(rng).foretold(k + 1),
{
    i8_of(rng.next_u32())
}

} // verus!
