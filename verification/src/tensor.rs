//! The model's input tensor: one batch element of three colour planes, each
//! entry a binary32 bit pattern, and the normalisation that fills it.

use crate::levels::{
    deviation_milli, mean_milli, normalization_round_trips, normalize, normalized_bits,
    normalized_is_finite,
};
use crate::score::Score;
use vstd::arithmetic::div_mod::lemma_fundamental_div_mod_converse;
use vstd::prelude::*;

verus! {

/// A model input: one batch element of three square colour planes (red,
/// green, blue), each `size` rows of `size` entries, stored plane after plane.
/// An entry is the bit pattern of a binary32 value.
#[derive(Clone, Debug)]
pub struct Tensor {
    pub size: u32,
    pub data: Vec<u32>,
}

/// The number of entries in one colour plane of a tensor of this size.
pub open spec fn plane_len(size: u32) -> int {
    size as int * size as int
}

/// Where the entry of channel `c`, row `y`, column `x` stands in a tensor.
pub open spec fn tensor_offset(size: u32, c: int, y: int, x: int) -> int {
    (c * size + y) * size + x
}

/// Where the sample of channel `c`, row `y`, column `x` stands among
/// interleaved pixels, stored row after row with three samples per pixel.
pub open spec fn pixel_offset(size: u32, c: int, y: int, x: int) -> int {
    (y * size + x) * 3 + c
}

/// The tensor entries for interleaved pixels: entry `i` belongs to channel
/// `i / plane` and to the pixel at position `i % plane`.
pub open spec fn planes_of(pixels: Seq<u8>, plane: int) -> Seq<u32> {
    Seq::new(
        (3 * plane) as nat,
        |i: int| normalized_bits(i / plane, pixels[(i % plane) * 3 + i / plane] as int),
    )
}

impl Tensor {
    /// Whether the tensor holds exactly its three planes.
    pub open spec fn wf(&self) -> bool {
        self.data@.len() == 3 * plane_len(self.size)
    }

    /// Batch, channels, height, width.
    pub open spec fn spec_shape(&self) -> (usize, usize, usize, usize) {
        (1, 3, self.size as usize, self.size as usize)
    }

    /// The shape of the tensor: batch, channels, height, width.
    #[verifier::when_used_as_spec(spec_shape)]
    pub fn shape(&self) -> (r: (usize, usize, usize, usize))
        ensures
            r == self.spec_shape(),
            r.2 == self.size,
            r.3 == self.size,
    {
        (1, 3, self.size as usize, self.size as usize)
    }

    /// The entry of channel `c`, row `y`, column `x`.
    pub fn get(&self, c: usize, y: usize, x: usize) -> (r: u32)
        requires
            self.wf(),
            c < 3,
            y < self.size,
            x < self.size,
        ensures
            r == self.data@[tensor_offset(self.size, c as int, y as int, x as int)],
    {
        let size: usize = self.size as usize;
        proof {
            lemma_offset_in_range(self.size, c as int, y as int, x as int);
        }
        assert(self.data.len() <= usize::MAX);
        let row: usize = c * size + y;
        self.data[row * size + x]
    }
}

/// Offsets of entries in range are in range, and so are their parts.
pub proof fn lemma_offset_in_range(size: u32, c: int, y: int, x: int)
    requires
        0 <= c < 3,
        0 <= y < size,
        0 <= x < size,
    ensures
        0 <= c * size <= c * size + y <= tensor_offset(size, c, y, x),
        0 <= y * size + x < plane_len(size),
        tensor_offset(size, c, y, x) == c * plane_len(size) + (y * size + x),
        0 <= tensor_offset(size, c, y, x) < 3 * plane_len(size),
        0 <= pixel_offset(size, c, y, x) < 3 * plane_len(size),
{
    let n = size as int;
    assert(0 <= y * n && y * n + x < n * n) by (nonlinear_arith)
        requires
            0 <= y < n,
            0 <= x < n,
    ;
    assert(0 <= c * n) by (nonlinear_arith)
        requires
            0 <= c,
            0 <= n,
    ;
    assert((c * n + y) * n + x == c * (n * n) + (y * n + x)) by (nonlinear_arith);
    assert(c * (n * n) + (y * n + x) < 3 * (n * n)) by (nonlinear_arith)
        requires
            0 <= c < 3,
            0 <= y * n + x < n * n,
    ;
    assert(0 <= c * (n * n)) by (nonlinear_arith)
        requires
            0 <= c,
    ;
    assert(c * n + y <= (c * n + y) * n + x) by (nonlinear_arith)
        requires
            0 <= c * n + y,
            1 <= n,
            0 <= x,
    ;
}

/// Normalises interleaved pixels of a square picture into a tensor: each
/// sample goes to its colour plane, at its pixel's place, as its normalised
/// value. Without exactly three samples for each of `size * size` pixels there
/// is no tensor.
pub fn normalize_pixels(pixels: &[u8], size: u32) -> (r: Option<Tensor>)
    ensures
        r is Some <==> pixels@.len() == 3 * plane_len(size),
        r matches Some(t) ==> t.size == size && t.data@ == planes_of(pixels@, plane_len(size)),
{
    let side: u64 = size as u64;
    assert(side * side <= 0xffff_fffe_0000_0001) by (nonlinear_arith)
        requires
            0 <= side <= 0xffff_ffff,
    ;
    let plane_wide: u64 = side * side;
    assert(plane_wide == plane_len(size));
    let count: u64 = pixels.len() as u64;
    if plane_wide > count / 3 {
        return None;
    }
    if count != 3 * plane_wide {
        return None;
    }
    let plane: usize = plane_wide as usize;
    let mut data: Vec<u32> = Vec::new();
    let mut c: usize = 0;
    let mut base: usize = 0;
    while c < 3
        invariant
            c <= 3,
            base == c * plane,
            plane == plane_len(size),
            pixels@.len() == 3 * plane,
            3 * plane <= usize::MAX,
            data@.len() == base,
            forall|i: int| 0 <= i < data@.len() ==> data@[i] == planes_of(pixels@, plane as int)[i],
        decreases 3 - c,
    {
        let mut p: usize = 0;
        while p < plane
            invariant
                c < 3,
                p <= plane,
                base == c * plane,
                plane == plane_len(size),
                pixels@.len() == 3 * plane,
                3 * plane <= usize::MAX,
                data@.len() == base + p,
                forall|i: int|
                    0 <= i < data@.len() ==> data@[i] == planes_of(pixels@, plane as int)[i],
            decreases plane - p,
        {
            proof {
                lemma_fundamental_div_mod_converse(base + p, plane as int, c as int, p as int);
                assert(base + p < 3 * plane) by (nonlinear_arith)
                    requires
                        base == c * plane,
                        c < 3,
                        p < plane,
                ;
            }
            data.push(normalize(c, pixels[p * 3 + c]));
            p += 1;
        }
        assert((c + 1) * plane == c * plane + plane && c * plane + plane <= 3 * plane)
            by (nonlinear_arith)
            requires
                c < 3,
                0 <= plane,
        ;
        base = base + plane;
        c += 1;
    }
    assert(data@ =~= planes_of(pixels@, plane as int));
    Some(Tensor { size, data })
}

/// Reading a tensor by channel, row and column: the entry is the normalised
/// sample of that channel in the pixel of that row and column.
pub proof fn tensor_entry(pixels: Seq<u8>, size: u32, c: int, y: int, x: int)
    requires
        pixels.len() == 3 * plane_len(size),
        0 <= c < 3,
        0 <= y < size,
        0 <= x < size,
    ensures
        planes_of(pixels, plane_len(size))[tensor_offset(size, c, y, x)] == normalized_bits(
            c,
            pixels[pixel_offset(size, c, y, x)] as int,
        ),
{
    lemma_offset_in_range(size, c, y, x);
    lemma_fundamental_div_mod_converse(
        tensor_offset(size, c, y, x),
        plane_len(size),
        c,
        y * size + x,
    );
}

/// Undoing the normalisation of a tensor gives the pixels back: for the
/// entry `n` of channel `c`, row `y` and column `x`, `(n * deviation + mean)
/// * 255`, in exact arithmetic, is within a thousandth of the sample of that
/// channel in the pixel of that row and column.
pub proof fn tensor_round_trips(pixels: Seq<u8>, size: u32, c: int, y: int, x: int)
    requires
        pixels.len() == 3 * plane_len(size),
        0 <= c < 3,
        0 <= y < size,
        0 <= x < size,
    ensures
        ({
            let stored = Score { bits: planes_of(pixels, plane_len(size))[tensor_offset(size, c, y, x)] };
            let level = pixels[pixel_offset(size, c, y, x)] as int;
            let error = (stored.fixed40() * deviation_milli(c) + mean_milli(c) * 0x100_0000_0000)
                * 255 - level * 1000 * 0x100_0000_0000;
            -0x100_0000_0000 <= error <= 0x100_0000_0000
        }),
{
    tensor_entry(pixels, size, c, y, x);
    lemma_offset_in_range(size, c, y, x);
    normalization_round_trips(c, pixels[pixel_offset(size, c, y, x)] as int);
}

/// Every entry of a tensor made from pixels is a finite number.
pub proof fn tensor_is_finite(pixels: Seq<u8>, size: u32, i: int)
    requires
        pixels.len() == 3 * plane_len(size),
        0 <= i < 3 * plane_len(size),
    ensures
        (Score { bits: planes_of(pixels, plane_len(size))[i] }).is_finite(),
{
    let plane = plane_len(size);
    assert(plane > 0);
    assert(0 <= i / plane < 3) by (nonlinear_arith)
        requires
            0 <= i < 3 * plane,
            plane > 0,
    ;
    normalized_is_finite(i / plane, pixels[(i % plane) * 3 + i / plane] as int);
}

} // verus!
