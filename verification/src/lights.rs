//! Logical color data for the four light fixtures and its serialization
//! into the 32-bit words that the timing encoder's queue consumes.
//!
//! A fixture word carries a fixed all-ones header byte and three channel
//! intensity bytes. A frame is the four fixture words in fixed order
//! (front-left, front-right, rear-right, rear-left) followed by a fixed
//! three-word terminator; a frame is enqueued atomically so two writers
//! can never interleave partial frames.

use vstd::prelude::*;

verus! {

/// Header byte (all ones) in the top byte of every fixture word.
pub const COLOR_WORD_HEADER: u32 = 0xFF00_0000;

/// First terminator word written after the four fixture words.
pub const TERMINATOR_WORD_A: u32 = 0xFF00_0000;

/// Second terminator word: the zero sentinel that makes the encoder emit
/// its fixed-width reset pulse between frames.
pub const TERMINATOR_WORD_B: u32 = 0;

/// Third terminator word; an opaque protocol constant with no documented
/// meaning beyond being part of the observed waveform.
pub const TERMINATOR_WORD_C: u32 = 42;

/// A fixture word: the header byte, then the three channel bytes in
/// descending byte positions.
pub open spec fn pack_word(hi: u8, mid: u8, lo: u8) -> u32 {
    COLOR_WORD_HEADER | ((hi as u32) << 16) | ((mid as u32) << 8) | (lo as u32)
}

/// Channel intensities for a front fixture.
#[derive(Clone, Copy, Debug)]
pub struct FrontLeds {
    pub yellow: u8,
    pub low_beam: u8,
    pub high_beam: u8,
}

/// The word a front fixture serializes to: high beam, low beam, yellow.
pub open spec fn front_word(leds: FrontLeds) -> u32 {
    pack_word(leds.high_beam, leds.low_beam, leds.yellow)
}

impl FrontLeds {
    /// Pack the three channel bytes behind the fixed header byte.
    pub fn word(&self) -> (r: u32)
        ensures
            r == front_word(*self),
    {
        let mut ret: u32 = COLOR_WORD_HEADER;
        ret = ret | ((self.high_beam as u32) << 16);
        ret = ret | ((self.low_beam as u32) << 8);
        ret | (self.yellow as u32)
    }
}

/// Channel intensities for a rear fixture.
#[derive(Clone, Copy, Debug)]
pub struct RearLeds {
    pub yellow: u8,
    pub white: u8,
    pub red: u8,
}

/// The word a rear fixture serializes to: red, white, yellow.
pub open spec fn rear_word(leds: RearLeds) -> u32 {
    pack_word(leds.red, leds.white, leds.yellow)
}

impl RearLeds {
    /// Pack the three channel bytes behind the fixed header byte.
    pub fn word(&self) -> (r: u32)
        ensures
            r == rear_word(*self),
    {
        let mut ret: u32 = COLOR_WORD_HEADER;
        ret = ret | ((self.red as u32) << 16);
        ret = ret | ((self.white as u32) << 8);
        ret | (self.yellow as u32)
    }
}

proof fn lemma_pack_layout(hi: u8, mid: u8, lo: u8)
    ensures
        pack_word(hi, mid, lo) >> 24 == 0xFF,
        (pack_word(hi, mid, lo) >> 16) & 0xFF == hi,
        (pack_word(hi, mid, lo) >> 8) & 0xFF == mid,
        pack_word(hi, mid, lo) & 0xFF == lo,
{
    assert(pack_word(hi, mid, lo) >> 24 == 0xFF) by (bit_vector);
    assert((pack_word(hi, mid, lo) >> 16) & 0xFF == hi) by (bit_vector);
    assert((pack_word(hi, mid, lo) >> 8) & 0xFF == mid) by (bit_vector);
    assert(pack_word(hi, mid, lo) & 0xFF == lo) by (bit_vector);
}

/// Law: serializing a front fixture always yields a word whose top byte is
/// the all-ones header and whose remaining bytes are the high-beam,
/// low-beam and yellow intensities, for all byte values.
pub proof fn law_front_word_layout(leds: FrontLeds)
    ensures
        front_word(leds) >> 24 == 0xFF,
        (front_word(leds) >> 16) & 0xFF == leds.high_beam,
        (front_word(leds) >> 8) & 0xFF == leds.low_beam,
        front_word(leds) & 0xFF == leds.yellow,
{
    lemma_pack_layout(leds.high_beam, leds.low_beam, leds.yellow);
}

/// Law: serializing a rear fixture always yields a word whose top byte is
/// the all-ones header and whose remaining bytes are the red, white and
/// yellow intensities, for all byte values.
pub proof fn law_rear_word_layout(leds: RearLeds)
    ensures
        rear_word(leds) >> 24 == 0xFF,
        (rear_word(leds) >> 16) & 0xFF == leds.red,
        (rear_word(leds) >> 8) & 0xFF == leds.white,
        rear_word(leds) & 0xFF == leds.yellow,
{
    lemma_pack_layout(leds.red, leds.white, leds.yellow);
}

/// The encoder's write queue, modeled as the sequence of words enqueued
/// and not yet serialized. On the device this is the transmit FIFO of the
/// timing encoder's state machine; a full FIFO stalls the writer until
/// the encoder drains it, so every enqueue eventually lands.
pub struct WordQueue {
    words: Vec<u32>,
}

impl View for WordQueue {
    type V = Seq<u32>;

    closed spec fn view(&self) -> Seq<u32> {
        self.words@
    }
}

impl WordQueue {
    /// An empty queue.
    pub fn new() -> (r: WordQueue)
        ensures
            r@ == Seq::<u32>::empty(),
    {
        WordQueue { words: Vec::new() }
    }

    /// Number of words enqueued.
    pub fn len(&self) -> (r: usize)
        ensures
            r == self@.len(),
    {
        self.words.len()
    }

    /// The word at position `i`.
    pub fn get(&self, i: usize) -> (r: u32)
        requires
            i < self@.len(),
        ensures
            r == self@[i as int],
    {
        self.words[i]
    }

    /// Append one word.
    pub(crate) fn push(&mut self, w: u32)
        ensures
            final(self)@ == old(self)@.push(w),
    {
        self.words.push(w);
    }
}

/// Logical colors for all four fixtures.
#[derive(Clone, Copy, Debug)]
pub struct Leds {
    pub front_right: FrontLeds,
    pub front_left: FrontLeds,
    pub rear_right: RearLeds,
    pub rear_left: RearLeds,
}

impl Leds {
    /// The exact words one frame enqueues: the four fixture words in fixed
    /// order, then the three-word terminator.
    pub open spec fn frame_words(self) -> Seq<u32> {
        seq![
            front_word(self.front_left),
            front_word(self.front_right),
            rear_word(self.rear_right),
            rear_word(self.rear_left),
            TERMINATOR_WORD_A,
            TERMINATOR_WORD_B,
            TERMINATOR_WORD_C,
        ]
    }

    /// Law: a frame is exactly four fixture words — front-left,
    /// front-right, rear-right, rear-left — followed by the three-word
    /// terminator, seven words in all.
    pub proof fn law_frame_shape(self)
        ensures
            self.frame_words().len() == 7,
            self.frame_words()[0] == front_word(self.front_left),
            self.frame_words()[1] == front_word(self.front_right),
            self.frame_words()[2] == rear_word(self.rear_right),
            self.frame_words()[3] == rear_word(self.rear_left),
            self.frame_words()[4] == TERMINATOR_WORD_A,
            self.frame_words()[5] == TERMINATOR_WORD_B,
            self.frame_words()[6] == TERMINATOR_WORD_C,
    {
    }

    /// Enqueue one frame: exactly the seven `frame_words`, in order, with
    /// nothing interleaved — the words are written inside one critical
    /// section, so no concurrent frame writer can split them.
    pub fn write(&self, tx: &mut WordQueue)
        ensures
            final(tx)@ == old(tx)@ + self.frame_words(),
    {
        self.write_atomic(tx)
    }

    /// Relies on critical_section::with: it runs the enqueue closure
    /// exactly once, returns after it completes, and excludes every other
    /// critical section for the duration, so a frame's words are never
    /// interleaved with another writer's.
    #[verifier::external_body]
    fn write_atomic(&self, tx: &mut WordQueue)
        ensures
            final(tx)@ == old(tx)@ + self.frame_words(),
    {
        critical_section::with(|_cs| self.enqueue_words(tx))
    }

    fn enqueue_words(&self, tx: &mut WordQueue)
        ensures
            final(tx)@ == old(tx)@ + self.frame_words(),
    {
        let w_front_left: u32 = self.front_left.word();
        let w_front_right: u32 = self.front_right.word();
        let w_rear_right: u32 = self.rear_right.word();
        let w_rear_left: u32 = self.rear_left.word();
        tx.push(w_front_left);
        tx.push(w_front_right);
        tx.push(w_rear_right);
        tx.push(w_rear_left);
        tx.push(TERMINATOR_WORD_A);
        tx.push(TERMINATOR_WORD_B);
        tx.push(TERMINATOR_WORD_C);
        proof {
            assert(tx@ =~= old(tx)@ + self.frame_words());
        }
    }
}

} // verus!
