use vstd::prelude::*;
use vstd::assert_seqs_equal;

verus! {

/// Number of bytes in the packed color record: four 4-byte channels.
pub const COLOR_BYTES: usize = 16;

/// Bit pattern of the single-precision value 0.0.
pub const BITS_ZERO: u32 = 0x0000_0000;
/// Bit pattern of the single-precision value 0.5.
pub const BITS_HALF: u32 = 0x3F00_0000;
/// Bit pattern of the single-precision value 1.0.
pub const BITS_ONE: u32 = 0x3F80_0000;

/// A non-premultiplied color: four channels in the order red, green, blue,
/// alpha, each held as the bit pattern of an IEEE-754 single-precision value
/// in [0, 1]. Holding the raw patterns lets the packed GPU layout be stated
/// byte for byte; the host converts to and from its own floating-point
/// channels at the boundary.
#[derive(Clone, Copy, PartialEq, Eq, Structural, Debug)]
pub struct Color {
    pub r: u32,
    pub g: u32,
    pub b: u32,
    pub a: u32,
}

impl Color {
    /// Over non-negative single-precision bit patterns the unsigned order
    /// matches the numeric order, so a channel lies in [0, 1] exactly when
    /// its pattern is at most that of 1.0.
    pub open spec fn valid(self) -> bool {
        self.r <= BITS_ONE && self.g <= BITS_ONE && self.b <= BITS_ONE && self.a <= BITS_ONE
    }

    /// Builds the color from the four-element channel array the UI layer
    /// hands around: index 0 red, 1 green, 2 blue, 3 alpha.
    pub fn new(rgba: [u32; 4]) -> (c: Color)
        ensures
            c.r == rgba@[0],
            c.g == rgba@[1],
            c.b == rgba@[2],
            c.a == rgba@[3],
    {
        Color { r: rgba[0], g: rgba[1], b: rgba[2], a: rgba[3] }
    }
}

/// The color committed at startup: opaque red.
pub open spec fn spec_initial_color() -> Color {
    Color { r: BITS_ONE, g: BITS_ZERO, b: BITS_ZERO, a: BITS_ONE }
}

/// Returns the startup color, opaque red.
pub fn initial_color() -> (c: Color)
    ensures
        c == spec_initial_color(),
        c.valid(),
{
    Color { r: BITS_ONE, g: BITS_ZERO, b: BITS_ZERO, a: BITS_ONE }
}

/// The four little-endian bytes of one 32-bit channel word.
pub open spec fn le_bytes(w: u32) -> Seq<u8> {
    seq![
        (w % 256) as u8,
        ((w / 256) % 256) as u8,
        ((w / 65536) % 256) as u8,
        ((w / 16777216) % 256) as u8,
    ]
}

/// The packed uniform record: the channels in order r, g, b, a, each as four
/// little-endian bytes — 16 bytes in all, matching a shader-side struct of
/// four 4-byte scalars at offsets 0, 4, 8 and 12.
pub open spec fn packed_bytes(c: Color) -> Seq<u8> {
    le_bytes(c.r) + le_bytes(c.g) + le_bytes(c.b) + le_bytes(c.a)
}

/// Appends the four little-endian bytes of one channel word.
fn push_word_le(out: &mut Vec<u8>, w: u32)
    ensures
        final(out)@ == old(out)@ + le_bytes(w),
{
    out.push((w % 256) as u8);
    out.push(((w / 256) % 256) as u8);
    out.push(((w / 65536) % 256) as u8);
    out.push(((w / 16777216) % 256) as u8);
    proof {
        assert_seqs_equal!(out@ == old(out)@ + le_bytes(w));
    }
}

/// Serializes a color into the packed uniform record.
pub fn pack_color(c: &Color) -> (out: Vec<u8>)
    ensures
        out@ == packed_bytes(*c),
        out@.len() == COLOR_BYTES,
{
    let mut out: Vec<u8> = Vec::new();
    push_word_le(&mut out, c.r);
    push_word_le(&mut out, c.g);
    push_word_le(&mut out, c.b);
    push_word_le(&mut out, c.a);
    proof {
        assert_seqs_equal!(out@ == packed_bytes(*c));
    }
    out
}

/// What the uniform record holds after a write: a function of the written
/// color alone — a write replaces the whole record.
pub open spec fn spec_written(prev: Seq<u8>, c: Color) -> Seq<u8> {
    packed_bytes(c)
}

/// Writing a color is a total overwrite: the record afterwards is the packed
/// form of that color, whatever the buffer held before.
pub proof fn lemma_write_is_total(prev1: Seq<u8>, prev2: Seq<u8>, c: Color)
    ensures
        spec_written(prev1, c) == packed_bytes(c),
        spec_written(prev1, c) == spec_written(prev2, c),
{
}

/// Host-side model of the single GPU uniform record: the bytes the device
/// reads at draw time. The record starts zeroed, as the backend allocates
/// buffers, and every write overwrites it whole.
pub struct ColorUniform {
    bytes: Vec<u8>,
}

impl View for ColorUniform {
    type V = Seq<u8>;

    closed spec fn view(&self) -> Seq<u8> {
        self.bytes@
    }
}

impl ColorUniform {
    /// A freshly allocated record: 16 zero bytes, which is also the packed
    /// form of the all-zero color.
    pub fn new() -> (u: ColorUniform)
        ensures
            u@ == packed_bytes(Color { r: 0, g: 0, b: 0, a: 0 }),
            u@.len() == COLOR_BYTES,
    {
        ColorUniform { bytes: pack_color(&Color { r: 0, g: 0, b: 0, a: 0 }) }
    }

    /// Overwrites the whole record with the packed form of `c`.
    pub fn write(&mut self, c: &Color)
        ensures
            final(self)@ == spec_written(old(self)@, *c),
            final(self)@ == packed_bytes(*c),
    {
        self.bytes = pack_color(c);
    }

    /// Reads the record back, byte for byte.
    pub fn read_back(&self) -> (out: Vec<u8>)
        ensures
            out@ == self@,
    {
        let mut out: Vec<u8> = Vec::new();
        let mut i: usize = 0;
        while i < self.bytes.len()
            invariant
                i <= self.bytes.len(),
                out@ == self.bytes@.take(i as int),
            decreases self.bytes.len() - i,
        {
            out.push(self.bytes[i]);
            proof {
                assert_seqs_equal!(
                    self.bytes@.take(i + 1 as int) == self.bytes@.take(i as int).push(self.bytes@[i as int])
                );
            }
            i += 1;
        }
        proof {
            assert_seqs_equal!(self.bytes@.take(self.bytes@.len() as int) == self.bytes@);
        }
        out
    }
}

} // verus!
