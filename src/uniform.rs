use vstd::prelude::*;
use crate::color::{premultiplied_of, premultiply, PremultipliedColor};
use crate::params::{BevelMode, BevelParams};

verus! {

/// Size in bytes of the uniform record that the fragment stage reads.
pub const UNIFORM_SIZE: usize = 48;

/// Byte offsets of the fields in the uniform record.
pub const HIGHLIGHT_COLOR_OFFSET: usize = 0;
pub const SHADOW_COLOR_OFFSET: usize = 16;
pub const STRENGTH_OFFSET: usize = 32;
pub const BEVEL_TYPE_OFFSET: usize = 36;
pub const KNOCKOUT_OFFSET: usize = 40;
pub const COMPOSITE_SOURCE_OFFSET: usize = 44;

/// The code of a mode in the uniform record.
pub open spec fn bevel_type_code(m: BevelMode) -> u32 {
    match m {
        BevelMode::Outer => 0,
        BevelMode::Inner => 1,
        BevelMode::Full => 2,
    }
}

pub open spec fn flag_code(b: bool) -> u32 {
    if b {
        1
    } else {
        0
    }
}

/// The uniform record of one bevel draw, before its real-valued fields are
/// written as `f32`.
#[derive(Clone, Copy, Debug, PartialEq, Eq, Structural)]
pub struct BevelUniform {
    pub highlight_color: PremultipliedColor,
    pub shadow_color: PremultipliedColor,
    /// 8.8 fixed-point bits.
    pub strength: i16,
    pub bevel_type: u32,
    pub knockout: u32,
    pub composite_source: u32,
}

/// The `f32` bit patterns of the record's real-valued fields, in field order:
/// the four premultiplied highlight channels, the four shadow channels, and
/// the strength.
#[derive(Clone, Copy, Debug, PartialEq, Eq)]
pub struct UniformFloatBits {
    pub highlight_color: [u32; 4],
    pub shadow_color: [u32; 4],
    pub strength: u32,
}

/// The record that a draw with parameters `p` uses.
pub open spec fn uniform_of(p: BevelParams) -> BevelUniform {
    BevelUniform {
        highlight_color: premultiplied_of(p.highlight_color),
        shadow_color: premultiplied_of(p.shadow_color),
        strength: p.strength,
        bevel_type: bevel_type_code(p.mode),
        knockout: flag_code(p.knockout),
        composite_source: 1,
    }
}

/// The record as twelve 32-bit words, in field order.
pub open spec fn uniform_words(u: BevelUniform, bits: UniformFloatBits) -> Seq<u32> {
    seq![
        bits.highlight_color@[0], bits.highlight_color@[1], bits.highlight_color@[2],
        bits.highlight_color@[3], bits.shadow_color@[0], bits.shadow_color@[1],
        bits.shadow_color@[2], bits.shadow_color@[3], bits.strength, u.bevel_type,
        u.knockout, u.composite_source,
    ]
}

/// Byte `j` of `w`, counted from the least significant byte.
pub open spec fn byte_of(w: u32, j: int) -> u8 {
    (((w as int) / pow256(j)) % 256) as u8
}

pub open spec fn pow256(j: int) -> int {
    if j <= 0 {
        1
    } else if j == 1 {
        256
    } else if j == 2 {
        65536
    } else {
        16777216
    }
}

/// `bytes` holds each word of `words` in turn, four bytes a word, all in one
/// byte order: least significant byte first, or most significant first.
pub open spec fn bytes_of_words(bytes: Seq<u8>, words: Seq<u32>) -> bool {
    &&& bytes.len() == 4 * words.len()
    &&& {
        ||| forall|i: int, j: int|
            0 <= i < words.len() && 0 <= j < 4 ==> #[trigger] bytes[4 * i + j] == byte_of(
                words[i],
                j,
            )
        ||| forall|i: int, j: int|
            0 <= i < words.len() && 0 <= j < 4 ==> #[trigger] bytes[4 * i + j] == byte_of(
                words[i],
                3 - j,
            )
    }
}

/// Relies on bytemuck::cast_slice from `u32` to `u8`: the same memory seen as
/// bytes, four for each word, in the machine's byte order.
#[verifier::external_body]
fn words_as_bytes(words: &Vec<u32>) -> (r: Vec<u8>)
    ensures
        bytes_of_words(r@, words@),
{
    bytemuck::cast_slice::<u32, u8>(words.as_slice()).to_vec()
}

pub fn bevel_type_of(m: BevelMode) -> (r: u32)
    ensures
        r == bevel_type_code(m),
{
    match m {
        BevelMode::Outer => 0,
        BevelMode::Inner => 1,
        BevelMode::Full => 2,
    }
}

impl BevelUniform {
    /// Builds the record for one draw: both colors premultiplied, the mode
    /// and knockout flag encoded, the source always composited.
    pub fn new(p: &BevelParams) -> (r: BevelUniform)
        ensures
            r == uniform_of(*p),
            r.highlight_color.in_unit_range(),
            r.shadow_color.in_unit_range(),
            r.bevel_type <= 2,
            r.knockout <= 1,
    {
        BevelUniform {
            highlight_color: premultiply(p.highlight_color),
            shadow_color: premultiply(p.shadow_color),
            strength: p.strength,
            bevel_type: bevel_type_of(p.mode),
            knockout: if p.knockout {
                1
            } else {
                0
            },
            composite_source: 1,
        }
    }

    /// The record as twelve words in field order, the real-valued fields
    /// given by their `f32` bits.
    pub fn words(&self, bits: &UniformFloatBits) -> (r: Vec<u32>)
        ensures
            r@ == uniform_words(*self, *bits),
    {
        let mut w: Vec<u32> = Vec::new();
        w.push(bits.highlight_color[0]);
        w.push(bits.highlight_color[1]);
        w.push(bits.highlight_color[2]);
        w.push(bits.highlight_color[3]);
        w.push(bits.shadow_color[0]);
        w.push(bits.shadow_color[1]);
        w.push(bits.shadow_color[2]);
        w.push(bits.shadow_color[3]);
        w.push(bits.strength);
        w.push(self.bevel_type);
        w.push(self.knockout);
        w.push(self.composite_source);
        assert(w@ =~= uniform_words(*self, *bits));
        w
    }

    /// The bytes to upload as the uniform buffer.
    pub fn to_bytes(&self, bits: &UniformFloatBits) -> (r: Vec<u8>)
        ensures
            r@.len() == UNIFORM_SIZE,
            bytes_of_words(r@, uniform_words(*self, *bits)),
    {
        let w = self.words(bits);
        words_as_bytes(&w)
    }
}

/// A fully transparent highlight or shadow color reaches the fragment stage
/// as transparent black, whatever its color channels hold.
pub proof fn lemma_transparent_colors_premultiply_to_zero(p: BevelParams)
    ensures
        p.highlight_color.a == 0 ==> uniform_of(p).highlight_color.is_zero(),
        p.shadow_color.a == 0 ==> uniform_of(p).shadow_color.is_zero(),
{
}

/// The record fills exactly `UNIFORM_SIZE` bytes, each field at its offset:
/// the highlight color, the shadow color, the strength, the mode code, the
/// knockout flag and the composite-source flag, four bytes a word.
pub proof fn lemma_uniform_layout(u: BevelUniform, bits: UniformFloatBits)
    ensures
        4 * uniform_words(u, bits).len() == UNIFORM_SIZE as int,
        forall|i: int|
            0 <= i < 4 ==> uniform_words(u, bits)[HIGHLIGHT_COLOR_OFFSET as int / 4 + i]
                == bits.highlight_color@[i],
        forall|i: int|
            0 <= i < 4 ==> uniform_words(u, bits)[SHADOW_COLOR_OFFSET as int / 4 + i]
                == bits.shadow_color@[i],
        uniform_words(u, bits)[STRENGTH_OFFSET as int / 4] == bits.strength,
        uniform_words(u, bits)[BEVEL_TYPE_OFFSET as int / 4] == u.bevel_type,
        uniform_words(u, bits)[KNOCKOUT_OFFSET as int / 4] == u.knockout,
        uniform_words(u, bits)[COMPOSITE_SOURCE_OFFSET as int / 4] == u.composite_source,
{
    assert forall|i: int| 0 <= i < 4 implies uniform_words(u, bits)[HIGHLIGHT_COLOR_OFFSET as int / 4 + i]
        == bits.highlight_color@[i] by {
        assert(0 <= i < 4);
    }
}

} // verus!
