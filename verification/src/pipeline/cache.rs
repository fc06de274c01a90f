use vstd::prelude::*;

verus! {

/// Byte alignment that every row of a texture copy must satisfy on the GPU
/// backends this renderer targets.
pub const ROW_ALIGNMENT: usize = 256;

/// The glyph atlas: a single-channel (8-bit coverage) texture of the given
/// dimensions, written patch by patch at pixel rectangles chosen by the
/// caller's layout engine. This type carries the dimensions and performs the
/// row repacking a GPU copy requires; the texture itself lives with the
/// caller, which executes the returned patches.
#[derive(Debug, Clone, Copy, PartialEq, Eq, Structural)]
pub struct Cache {
    pub width: u32,
    pub height: u32,
}

/// One ready-to-copy atlas patch: `height` rows of `bytes_per_row` bytes,
/// to be written at pixel offset `(x, y)` covering `width x height` pixels.
pub struct TexturePatch {
    pub x: u32,
    pub y: u32,
    pub width: u32,
    pub height: u32,
    pub bytes_per_row: usize,
    pub data: Vec<u8>,
}

/// Length of a row of `width` coverage bytes once padded up to the next
/// multiple of the copy alignment.
pub open spec fn spec_padded_width(width: int) -> int {
    ((width + ROW_ALIGNMENT - 1) / (ROW_ALIGNMENT as int)) * (ROW_ALIGNMENT as int)
}

/// Byte `i` of the padded image: rows of `stride` bytes each begin with the
/// `width` source bytes of that row and end with zero padding.
pub open spec fn spec_padded_byte(data: Seq<u8>, width: int, stride: int, i: int) -> u8 {
    if i % stride < width {
        data[(i / stride) * width + (i % stride)]
    } else {
        0
    }
}

/// Rounds a row length up to the next multiple of the copy alignment.
fn padded_width(width: usize) -> (p: usize)
    requires
        width <= u16::MAX as usize,
    ensures
        p == spec_padded_width(width as int),
        width <= p < width + ROW_ALIGNMENT,
        p % ROW_ALIGNMENT == 0,
{
    let remainder: usize = width % ROW_ALIGNMENT;
    let p: usize = if remainder == 0 {
        width
    } else {
        width - remainder + ROW_ALIGNMENT
    };
    proof {
        vstd::arithmetic::div_mod::lemma_fundamental_div_mod(width as int, ROW_ALIGNMENT as int);
        let q = width as int / ROW_ALIGNMENT as int;
        let r = width as int % ROW_ALIGNMENT as int;
        if r == 0 {
            assert((width + ROW_ALIGNMENT - 1) / (ROW_ALIGNMENT as int) == q) by {
                vstd::arithmetic::div_mod::lemma_fundamental_div_mod_converse(
                    width + ROW_ALIGNMENT - 1,
                    ROW_ALIGNMENT as int,
                    q,
                    ROW_ALIGNMENT - 1,
                );
            };
        } else {
            assert((width + ROW_ALIGNMENT - 1) / (ROW_ALIGNMENT as int) == q + 1) by {
                vstd::arithmetic::div_mod::lemma_fundamental_div_mod_converse(
                    width + ROW_ALIGNMENT - 1,
                    ROW_ALIGNMENT as int,
                    q + 1,
                    r - 1,
                );
            };
        }
        assert(p % ROW_ALIGNMENT == 0) by {
            vstd::arithmetic::div_mod::lemma_mod_multiples_basic(
                if r == 0 { q } else { q + 1 },
                ROW_ALIGNMENT as int,
            );
        };
    }
    p
}

impl Cache {
    /// A fresh, empty atlas of the given dimensions. The caller pairs this
    /// with a zero-initialized single-channel texture of the same size.
    pub fn new(width: u32, height: u32) -> (c: Cache)
        ensures
            c == (Cache { width, height }),
    {
        Cache { width, height }
    }

    /// Repacks `size[0] * size[1]` tightly packed coverage bytes (row length
    /// `size[0]`, no padding) into a patch whose rows are padded to the copy
    /// alignment: each source row is copied into the front of the matching
    /// padded row and the padding bytes are zero.
    ///
    /// The rectangle must lie inside the atlas; writing outside the texture
    /// is a caller contract violation, so it is ruled out here.
    pub fn update(&self, offset: [u16; 2], size: [u16; 2], data: &Vec<u8>) -> (patch: TexturePatch)
        requires
            data.len() == size[0] * size[1],
            offset[0] + size[0] <= self.width,
            offset[1] + size[1] <= self.height,
            spec_padded_width(size[0] as int) * size[1] <= usize::MAX,
        ensures
            patch.x == offset[0] && patch.y == offset[1],
            patch.width == size[0] && patch.height == size[1],
            patch.bytes_per_row == spec_padded_width(size[0] as int),
            patch.data.len() == patch.bytes_per_row * size[1],
            forall|r: int, c: int|
                0 <= r < size[1] && 0 <= c < size[0] ==> #[trigger] patch.data[r * patch.bytes_per_row + c]
                    == data[r * size[0] + c],
            forall|r: int, c: int|
                0 <= r < size[1] && size[0] <= c < patch.bytes_per_row ==> #[trigger] patch.data[r
                    * patch.bytes_per_row + c] == 0,
    {
        let width: usize = size[0] as usize;
        let height: usize = size[1] as usize;
        let stride: usize = padded_width(width);
        let total: usize = stride * height;

        let mut padded: Vec<u8> = Vec::new();
        for i in 0..total
            invariant
                width == size[0] as int,
                height == size[1] as int,
                stride == spec_padded_width(size[0] as int),
                width <= stride <= usize::MAX,
                total == stride * height,
                data.len() == width * height,
                padded.len() == i,
                forall|j: int|
                    0 <= j < i ==> #[trigger] padded[j] == spec_padded_byte(
                        data@,
                        width as int,
                        stride as int,
                        j,
                    ),
        {
            let row: usize = i / stride;
            let col: usize = i % stride;
            proof {
                vstd::arithmetic::div_mod::lemma_fundamental_div_mod(i as int, stride as int);
                if row as int >= height {
                    vstd::arithmetic::mul::lemma_mul_inequality(
                        height as int,
                        row as int,
                        stride as int,
                    );
                    vstd::arithmetic::mul::lemma_mul_is_commutative(stride as int, height as int);
                }
                vstd::arithmetic::mul::lemma_mul_inequality(row + 1, height as int, width as int);
                vstd::arithmetic::mul::lemma_mul_is_distributive_add_other_way(
                    width as int,
                    row as int,
                    1,
                );
                vstd::arithmetic::mul::lemma_mul_is_commutative(height as int, width as int);
            }
            if col < width {
                padded.push(data[row * width + col]);
            } else {
                padded.push(0);
            }
        }
        proof {
            assert forall|r: int, c: int| 0 <= r < size[1] && 0 <= c < stride implies #[trigger]
            padded[r * stride + c] == spec_padded_byte(data@, width as int, stride as int, r
                * stride + c) && (r * stride + c) / stride as int == r && (r * stride + c)
                % stride as int == c by {
                vstd::arithmetic::div_mod::lemma_fundamental_div_mod_converse(
                    r * stride + c,
                    stride as int,
                    r,
                    c,
                );
                vstd::arithmetic::mul::lemma_mul_is_commutative(r, stride as int);
                vstd::arithmetic::mul::lemma_mul_inequality(r + 1, height as int, stride as int);
                vstd::arithmetic::mul::lemma_mul_is_distributive_add_other_way(
                    stride as int,
                    r,
                    1,
                );
            }
        }
        TexturePatch {
            x: offset[0] as u32,
            y: offset[1] as u32,
            width: size[0] as u32,
            height: size[1] as u32,
            bytes_per_row: stride,
            data: padded,
        }
    }
}

} // verus!
