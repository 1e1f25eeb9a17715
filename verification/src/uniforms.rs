//! The main uniform block: what the engine keeps of it from frame to frame,
//! and the words that go to the GPU.
//!
//! Fractional values are carried as IEEE 754 bit patterns, single precision
//! in a `u32` and double precision in a `u64`; the library moves and masks
//! them and leaves their arithmetic to the host.

use vstd::prelude::*;

verus! {

/// 10.0 in single precision.
pub const TEN: u32 = 0x4120_0000;

/// The word that fills the gap behind the time field.
pub const PAD_WORD: u32 = TEN;

/// The step by which one update advances time: 0.01 in single precision.
pub const TIME_STEP: u32 = 0x3c23_d70a;

/// Size of the main uniform block on the wire, in bytes.
pub const MAIN_UNIFORM_BYTES: usize = 32;

/// Size of the time uniform block on the wire, in bytes.
pub const TIME_UNIFORM_BYTES: usize = 16;

/// The magnitude of a single-precision value: its bit pattern with the sign
/// bit cleared.
pub open spec fn magnitude(bits: u32) -> u32 {
    bits & 0x7fff_ffff
}

/// Clears the sign bit of a single-precision bit pattern.
pub fn abs_bits(bits: u32) -> (r: u32)
    ensures
        r == magnitude(bits),
{
    bits & 0x7fff_ffff
}

/// The engine's uniform data. `time` counts update calls, one fixed step
/// each; `resolution` is the window size in pixels; `mouse_position` is the
/// pointer in window coordinates, double precision; `zoom` is the magnitude
/// of the accumulated scroll, single precision.
#[derive(Clone, Copy, Debug, PartialEq, Eq)]
pub struct MainUniforms {
    pub time: u64,
    pub resolution: (u32, u32),
    pub mouse_position: (u64, u64),
    pub zoom: (u32, u32),
}

impl MainUniforms {
    /// The data after one update with the given window size, pointer and
    /// accumulated scroll. The step counter stops at its largest value.
    pub open spec fn advanced(self, size: (u32, u32), pointer: (u64, u64), scroll: (u32, u32)) -> Self {
        MainUniforms {
            time: if self.time < u64::MAX {
                (self.time + 1) as u64
            } else {
                self.time
            },
            resolution: size,
            mouse_position: pointer,
            zoom: (magnitude(scroll.0), magnitude(scroll.1)),
        }
    }

    /// The data after `n` updates, all with the same inputs.
    pub open spec fn advanced_times(
        self,
        n: nat,
        size: (u32, u32),
        pointer: (u64, u64),
        scroll: (u32, u32),
    ) -> Self
        decreases n,
    {
        if n == 0 {
            self
        } else {
            self.advanced_times((n - 1) as nat, size, pointer, scroll).advanced(size, pointer, scroll)
        }
    }

    /// One update: a step of time, and the inputs copied in.
    pub fn advance(&mut self, size: (u32, u32), pointer: (u64, u64), scroll: (u32, u32))
        ensures
            *final(self) == old(self).advanced(size, pointer, scroll),
    {
        self.time = self.time.saturating_add(1);
        self.resolution = size;
        self.mouse_position = pointer;
        self.zoom = (abs_bits(scroll.0), abs_bits(scroll.1));
    }
}

impl Default for MainUniforms {
    /// Time zero, a 10 by 10 window, the pointer at the origin, no scroll.
    fn default() -> (u: Self)
        ensures
            u == (MainUniforms { time: 0, resolution: (10, 10), mouse_position: (0, 0), zoom: (0, 0) }),
    {
        MainUniforms { time: 0, resolution: (10, 10), mouse_position: (0, 0), zoom: (0, 0) }
    }
}

/// After `n` updates with the same inputs the block holds those inputs and a
/// time that is `n` steps on: it depends on the inputs and on the number of
/// calls alone. Stated for as long as the step counter has room.
pub proof fn lemma_updates_count_steps(
    start: MainUniforms,
    n: nat,
    size: (u32, u32),
    pointer: (u64, u64),
    scroll: (u32, u32),
)
    requires
        n >= 1,
        start.time + n <= u64::MAX,
    ensures
        start.advanced_times(n, size, pointer, scroll) == (MainUniforms {
            time: (start.time + n) as u64,
            resolution: size,
            mouse_position: pointer,
            zoom: (magnitude(scroll.0), magnitude(scroll.1)),
        }),
    decreases n,
{
    if n > 1 {
        lemma_updates_count_steps(start, (n - 1) as nat, size, pointer, scroll);
    } else {
        assert(start.advanced_times(0, size, pointer, scroll) == start);
    }
}

/// The four bytes of `word`, the lowest first where `low` holds and the
/// highest first where it does not.
pub open spec fn word_bytes(word: u32, low: bool) -> Seq<u8> {
    if low {
        seq![
            (word % 256) as u8,
            (word / 256 % 256) as u8,
            (word / 65536 % 256) as u8,
            (word / 16777216) as u8,
        ]
    } else {
        seq![
            (word / 16777216) as u8,
            (word / 65536 % 256) as u8,
            (word / 256 % 256) as u8,
            (word % 256) as u8,
        ]
    }
}

/// The bytes of `words`, word after word, every word in the byte order
/// `low`.
pub open spec fn spelled(words: Seq<u32>, low: bool) -> Seq<u8> {
    Seq::new(4 * words.len(), |i: int| word_bytes(words[i / 4], low)[i % 4])
}

/// Whether `bytes` are `words` in order, four bytes a word, all words in one
/// byte order: the lowest byte first or the highest first.
pub open spec fn spells(bytes: Seq<u8>, words: Seq<u32>) -> bool {
    bytes == spelled(words, true) || bytes == spelled(words, false)
}

/// `bytemuck::cast_slice` from `u32` to `u8`: the memory of the words, read
/// as bytes. The words follow each other without gaps, four bytes each, in
/// the machine's byte order, which is one of the two.
#[verifier::external_body]
pub(crate) fn words_as_bytes(words: &Vec<u32>) -> (bytes: Vec<u8>)
    ensures
        spells(bytes@, words@),
        bytes@.len() == 4 * words@.len(),
{
    bytemuck::cast_slice::<u32, u8>(words.as_slice()).to_vec()
}

/// The main uniform block as the shader reads it: every field a
/// single-precision bit pattern.
#[derive(Clone, Copy, Debug, PartialEq, Eq)]
pub struct MainUniformBlock {
    pub time: u32,
    pub resolution: (u32, u32),
    pub mouse_position: (u32, u32),
    pub zoom: (u32, u32),
}

impl MainUniforms {
    /// Whether `block` is this data as the shader reads it, given the
    /// caller's conversions to single precision: `steps` for the time that
    /// a count of steps comes to, `pixels` for a whole number of pixels,
    /// `narrow` for a double-precision value. Zoom is single precision
    /// already.
    pub open spec fn shown_as<S: Fn(u64) -> u32, X: Fn(u32) -> u32, N: Fn(u64) -> u32>(
        self,
        steps: S,
        pixels: X,
        narrow: N,
        block: MainUniformBlock,
    ) -> bool {
        &&& call_ensures(steps, (self.time,), block.time)
        &&& call_ensures(pixels, (self.resolution.0,), block.resolution.0)
        &&& call_ensures(pixels, (self.resolution.1,), block.resolution.1)
        &&& call_ensures(narrow, (self.mouse_position.0,), block.mouse_position.0)
        &&& call_ensures(narrow, (self.mouse_position.1,), block.mouse_position.1)
        &&& block.zoom == self.zoom
    }

    /// This data as the shader reads it.
    pub fn block<S: Fn(u64) -> u32, X: Fn(u32) -> u32, N: Fn(u64) -> u32>(
        &self,
        steps: &S,
        pixels: &X,
        narrow: &N,
    ) -> (block: MainUniformBlock)
        requires
            forall|n: u64| call_requires(*steps, (n,)),
            forall|p: u32| call_requires(*pixels, (p,)),
            forall|d: u64| call_requires(*narrow, (d,)),
        ensures
            self.shown_as(*steps, *pixels, *narrow, block),
    {
        let time: u32 = steps(self.time);
        let width: u32 = pixels(self.resolution.0);
        let height: u32 = pixels(self.resolution.1);
        let x: u32 = narrow(self.mouse_position.0);
        let y: u32 = narrow(self.mouse_position.1);
        MainUniformBlock {
            time,
            resolution: (width, height),
            mouse_position: (x, y),
            zoom: self.zoom,
        }
    }
}

impl MainUniformBlock {
    /// The block's words in wire order: time, one pad word, resolution,
    /// pointer position, zoom.
    pub open spec fn layout(self) -> Seq<u32> {
        seq![
            self.time,
            PAD_WORD,
            self.resolution.0,
            self.resolution.1,
            self.mouse_position.0,
            self.mouse_position.1,
            self.zoom.0,
            self.zoom.1,
        ]
    }

    /// The block's words in wire order.
    pub fn words(&self) -> (w: Vec<u32>)
        ensures
            w@ == self.layout(),
    {
        let w = vec![
            self.time,
            PAD_WORD,
            self.resolution.0,
            self.resolution.1,
            self.mouse_position.0,
            self.mouse_position.1,
            self.zoom.0,
            self.zoom.1,
        ];
        assert(w@ =~= self.layout());
        w
    }

    /// Whether `bytes` hold every field at its place, each in the byte
    /// order `low`: time at byte 0, the pad word at 4, resolution at 8, the
    /// pointer at 16 and zoom at 24.
    pub open spec fn placed(self, bytes: Seq<u8>, low: bool) -> bool {
        &&& bytes.len() == MAIN_UNIFORM_BYTES
        &&& bytes.subrange(0, 4) == word_bytes(self.time, low)
        &&& bytes.subrange(4, 8) == word_bytes(PAD_WORD, low)
        &&& bytes.subrange(8, 12) == word_bytes(self.resolution.0, low)
        &&& bytes.subrange(12, 16) == word_bytes(self.resolution.1, low)
        &&& bytes.subrange(16, 20) == word_bytes(self.mouse_position.0, low)
        &&& bytes.subrange(20, 24) == word_bytes(self.mouse_position.1, low)
        &&& bytes.subrange(24, 28) == word_bytes(self.zoom.0, low)
        &&& bytes.subrange(28, 32) == word_bytes(self.zoom.1, low)
    }

    /// The block's bytes as they are written to the GPU buffer: its words
    /// in wire order, in the machine's byte order.
    pub fn bytes(&self) -> (b: Vec<u8>)
        ensures
            spells(b@, self.layout()),
            b@.len() == MAIN_UNIFORM_BYTES,
    {
        let w = self.words();
        words_as_bytes(&w)
    }
}

/// A smaller block of time and resolution alone, every field a
/// single-precision bit pattern.
#[derive(Clone, Copy, Debug, PartialEq, Eq)]
pub struct TimeUniform {
    pub time: u32,
    pub resolution: (u32, u32),
}

impl TimeUniform {
    /// The block's words in wire order: time, one pad word, resolution.
    pub open spec fn layout(self) -> Seq<u32> {
        seq![self.time, PAD_WORD, self.resolution.0, self.resolution.1]
    }

    /// The block's words in wire order.
    pub fn words(&self) -> (w: Vec<u32>)
        ensures
            w@ == self.layout(),
    {
        let w = vec![self.time, PAD_WORD, self.resolution.0, self.resolution.1];
        assert(w@ =~= self.layout());
        w
    }

    /// The block's bytes as they are written to the GPU buffer: its words
    /// in wire order, in the machine's byte order.
    pub fn bytes(&self) -> (b: Vec<u8>)
        ensures
            spells(b@, self.layout()),
            b@.len() == TIME_UNIFORM_BYTES,
    {
        let w = self.words();
        words_as_bytes(&w)
    }
}

impl Default for TimeUniform {
    /// Time zero and a resolution of 10.0 by 10.0.
    fn default() -> (u: Self)
        ensures
            u == (TimeUniform { time: 0, resolution: (TEN, TEN) }),
    {
        TimeUniform { time: 0, resolution: (TEN, TEN) }
    }
}

/// The word at place `k` of `words` stands at bytes `4k` to `4k + 4` of their
/// spelling.
pub proof fn lemma_word_stands_at(words: Seq<u32>, low: bool, k: int)
    requires
        0 <= k < words.len(),
    ensures
        spelled(words, low).subrange(4 * k, 4 * k + 4) == word_bytes(words[k], low),
{
    let bytes = spelled(words, low);
    let part = bytes.subrange(4 * k, 4 * k + 4);
    assert(word_bytes(words[k], low).len() == 4);
    assert forall|i: int| 0 <= i < 4 implies part[i] == word_bytes(words[k], low)[i] by {
        assert(part[i] == bytes[4 * k + i]);
        assert((4 * k + i) / 4 == k && (4 * k + i) % 4 == i);
    }
    assert(part =~= word_bytes(words[k], low));
}

/// The wire layout of the main uniform block: bytes that spell its words
/// are 32, with time at byte 0, the pad word at 4, resolution at 8, the
/// pointer at 16 and zoom at 24, all in one byte order and without gaps.
pub proof fn lemma_main_block_layout(block: MainUniformBlock, bytes: Seq<u8>)
    requires
        spells(bytes, block.layout()),
    ensures
        block.placed(bytes, true) || block.placed(bytes, false),
{
    let words = block.layout();
    let low = bytes == spelled(words, true);
    lemma_word_stands_at(words, low, 0);
    lemma_word_stands_at(words, low, 1);
    lemma_word_stands_at(words, low, 2);
    lemma_word_stands_at(words, low, 3);
    lemma_word_stands_at(words, low, 4);
    lemma_word_stands_at(words, low, 5);
    lemma_word_stands_at(words, low, 6);
    lemma_word_stands_at(words, low, 7);
    assert(block.placed(bytes, low));
}

} // verus!
