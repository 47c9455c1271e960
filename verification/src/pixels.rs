//! Pixel data: the channel order of a painted buffer and what becomes of it.

use vstd::prelude::*;

verus! {

/// Source lane of each output lane when four BGRA pixels become RGBA pixels.
const BGRA_TO_RGBA_INDICES: [i8; 16] = [2, 1, 0, 3, 6, 5, 4, 7, 10, 9, 8, 11, 14, 13, 12, 15];

/// The byte of a BGRA buffer that stands at position `i` of the RGBA buffer:
/// the first and the third byte of a pixel change places.
pub open spec fn swapped_position(i: int) -> int {
    if i % 4 == 0 {
        i + 2
    } else if i % 4 == 2 {
        i - 2
    } else {
        i
    }
}

/// The number of bytes of `len` that belong to whole four-byte pixels.
pub open spec fn whole_pixels(len: int) -> int {
    len - len % 4
}

/// A BGRA buffer in RGBA order. Bytes behind the last whole pixel become zero.
pub open spec fn rgba_of(bgra: Seq<u8>) -> Seq<u8> {
    Seq::new(
        bgra.len(),
        |i: int|
            if i < whole_pixels(bgra.len() as int) {
                bgra[swapped_position(i)]
            } else {
                0u8
            },
    )
}

/// Picks bytes by index with `wide::u8x16::swizzle`: lane `i` of the result is
/// the byte at `indices[i]` where that index lies in `0..16`, and zero
/// elsewhere, each read as a signed byte.
#[verifier::external_body]
fn swizzle(bytes: [u8; 16], indices: [i8; 16]) -> (lanes: [i8; 16])
    ensures
        forall|i: int|
            0 <= i < 16 ==> #[trigger] lanes@[i] == (if 0 <= indices@[i] < 16 {
                bytes@[indices@[i] as int] as i8
            } else {
                0i8
            }),
{
    wide::u8x16::new(bytes).swizzle(wide::i8x16::new(indices)).into()
}

/// The first `done` bytes of `rgba` are those of `bgra` in RGBA order, and the
/// rest are still zero.
spec fn converted_up_to(bgra: Seq<u8>, rgba: Seq<u8>, done: int) -> bool {
    &&& rgba.len() == bgra.len()
    &&& forall|i: int| 0 <= i < done ==> #[trigger] rgba[i] == bgra[swapped_position(i)]
    &&& forall|i: int| done <= i < bgra.len() ==> #[trigger] rgba[i] == 0
}

/// Swaps red and blue in the 16 bytes of `bgra` that start at `offset`.
fn swap_chunk(bgra: &[u8], rgba: &mut Vec<u8>, offset: usize)
    requires
        offset % 16 == 0,
        offset + 16 <= bgra@.len(),
        converted_up_to(bgra@, old(rgba)@, offset as int),
    ensures
        converted_up_to(bgra@, final(rgba)@, offset + 16),
{
    let len: usize = bgra.len();
    let mut src: [u8; 16] = [0u8; 16];
    let mut j: usize = 0;
    while j < 16
        invariant
            j <= 16,
            len == bgra@.len(),
            offset + 16 <= len,
            forall|k: int| 0 <= k < j ==> src@[k] == bgra@[offset + k],
        decreases 16 - j,
    {
        src[j] = bgra[offset + j];
        j = j + 1;
    }
    let lanes = swizzle(src, BGRA_TO_RGBA_INDICES);
    let mut j: usize = 0;
    while j < 16
        invariant
            j <= 16,
            offset % 16 == 0,
            len == bgra@.len(),
            offset + 16 <= len,
            forall|k: int| 0 <= k < 16 ==> src@[k] == bgra@[offset + k],
            forall|k: int| 0 <= k < 16 ==> #[trigger] lanes@[k] == src@[swapped_position(k)] as i8,
            converted_up_to(bgra@, rgba@, offset + j),
        decreases 16 - j,
    {
        let lane: i8 = lanes[j];
        let byte: u8 = lane as u8;
        proof {
            let picked = src@[swapped_position(j as int)];
            assert((picked as i8) as u8 == picked) by (bit_vector);
            assert(swapped_position(offset + j) == offset + swapped_position(j as int));
        }
        rgba.set(offset + j, byte);
        j = j + 1;
    }
}

/// Swaps red and blue in the pixel of `bgra` that starts at `offset`.
fn swap_pixel(bgra: &[u8], rgba: &mut Vec<u8>, offset: usize)
    requires
        offset % 4 == 0,
        offset + 4 <= bgra@.len(),
        bgra@.len() <= usize::MAX,
        converted_up_to(bgra@, old(rgba)@, offset as int),
    ensures
        converted_up_to(bgra@, final(rgba)@, offset + 4),
{
    rgba.set(offset, bgra[offset + 2]);
    rgba.set(offset + 1, bgra[offset + 1]);
    rgba.set(offset + 2, bgra[offset]);
    rgba.set(offset + 3, bgra[offset + 3]);
    assert(swapped_position(offset as int) == offset + 2);
    assert(swapped_position(offset + 1) == offset + 1);
    assert(swapped_position(offset + 2) == offset);
    assert(swapped_position(offset + 3) == offset + 3);
}

/// Converts BGRA pixel data to RGBA, four pixels at a time.
pub fn bgra_to_rgba(bgra: &[u8]) -> (rgba: Vec<u8>)
    ensures
        rgba@ == rgba_of(bgra@),
{
    let len: usize = bgra.len();
    let mut rgba: Vec<u8> = vec![0u8; len];

    let simd_chunks: usize = len / 16;
    let mut chunk: usize = 0;
    while chunk < simd_chunks
        invariant
            chunk <= simd_chunks,
            len == bgra@.len(),
            simd_chunks * 16 <= len,
            converted_up_to(bgra@, rgba@, chunk * 16),
        decreases simd_chunks - chunk,
    {
        swap_chunk(bgra, &mut rgba, chunk * 16);
        chunk = chunk + 1;
    }

    let mut pixel: usize = simd_chunks * 16;
    while len - pixel >= 4
        invariant
            len == bgra@.len(),
            pixel % 4 == 0,
            pixel <= len,
            converted_up_to(bgra@, rgba@, pixel as int),
        decreases len - pixel,
    {
        swap_pixel(bgra, &mut rgba, pixel);
        pixel = pixel + 4;
    }
    assert(pixel == whole_pixels(len as int));
    assert(rgba@ =~= rgba_of(bgra@));
    rgba
}

/// Swapping red and blue is its own inverse: converting a buffer twice gives
/// it back, wherever no non-zero byte stands behind its last whole pixel.
pub proof fn conversion_is_its_own_inverse(bgra: Seq<u8>)
    requires
        forall|i: int| whole_pixels(bgra.len() as int) <= i < bgra.len() ==> bgra[i] == 0,
    ensures
        rgba_of(rgba_of(bgra)) == bgra,
{
    let once = rgba_of(bgra);
    assert forall|i: int| 0 <= i < bgra.len() implies rgba_of(once)[i] == bgra[i] by {
        if i < whole_pixels(bgra.len() as int) {
            assert(0 <= swapped_position(i) < whole_pixels(bgra.len() as int));
            assert(swapped_position(swapped_position(i)) == i);
        }
    }
    assert(rgba_of(once) =~= bgra);
}

/// The conversion keeps the length, and every whole pixel keeps its green and
/// alpha bytes while its red and blue bytes change places.
pub proof fn conversion_swaps_red_and_blue(bgra: Seq<u8>, pixel: int)
    requires
        0 <= pixel,
        4 * pixel + 4 <= bgra.len(),
    ensures
        rgba_of(bgra).len() == bgra.len(),
        rgba_of(bgra)[4 * pixel] == bgra[4 * pixel + 2],
        rgba_of(bgra)[4 * pixel + 1] == bgra[4 * pixel + 1],
        rgba_of(bgra)[4 * pixel + 2] == bgra[4 * pixel],
        rgba_of(bgra)[4 * pixel + 3] == bgra[4 * pixel + 3],
{
}

} // verus!
