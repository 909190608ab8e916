//! Readback of the render target: sizing of the download buffer and
//! extraction of the tightly packed pixel rows from the padded buffer the
//! GPU copies into.
//!
//! A texture-to-buffer copy requires each row to start at a multiple of
//! `ROW_ALIGN` bytes, so the download buffer holds `padded_bytes_per_row`
//! bytes per row of which only the first `4 * width` carry pixels. The
//! functions here compute that padding and strip it again, so the bytes
//! handed on are exactly the row-major RGBA8 image.

use vstd::prelude::*;

verus! {

/// Rows of a texture-to-buffer copy must be aligned to this many bytes.
pub const ROW_ALIGN: u32 = 256;

/// The packed size of one pixel row: four bytes per pixel.
pub fn bytes_per_row(width: u32) -> (n: u32)
    requires
        4 * width <= u32::MAX,
    ensures
        n == 4 * width,
{
    4 * width
}

/// The smallest multiple of `ROW_ALIGN` that holds one packed pixel row.
pub fn padded_bytes_per_row(width: u32) -> (n: u32)
    requires
        4 * width + 255 <= u32::MAX,
    ensures
        n % 256 == 0,
        4 * width <= n < 4 * width + 256,
{
    let packed: u32 = 4 * width;
    let rem: u32 = packed % ROW_ALIGN;
    if rem == 0 {
        packed
    } else {
        proof {
            vstd::arithmetic::div_mod::lemma_fundamental_div_mod(packed as int, 256);
            vstd::arithmetic::div_mod::lemma_mod_multiples_basic(
                packed as int / 256 + 1,
                256,
            );
        }
        packed + (ROW_ALIGN - rem)
    }
}

/// The padded buffer laid out again as packed rows: byte `j` of the result
/// is byte `j % row_len` of row `j / row_len` of the padded buffer.
pub open spec fn unpadded(
    padded: Seq<u8>,
    row_len: int,
    padded_row_len: int,
    height: int,
) -> Seq<u8> {
    Seq::new((height * row_len) as nat, |j: int| padded[(j / row_len) * padded_row_len + j % row_len])
}

/// Strip the per-row alignment padding from a downloaded buffer, leaving
/// the packed row-major RGBA8 bytes of a `width` by `height` image.
pub fn unpad_rows(padded: &Vec<u8>, width: u32, height: u32, padded_bpr: u32) -> (out: Vec<u8>)
    requires
        width > 0,
        4 * width <= padded_bpr,
        padded@.len() == padded_bpr * height,
    ensures
        out@.len() == 4 * width * height,
        out@ =~= unpadded(padded@, 4 * width as int, padded_bpr as int, height as int),
{
    let bpr: usize = 4 * (width as usize);
    let pbr: usize = padded_bpr as usize;
    let h: usize = height as usize;
    let total: usize = padded.len();
    let ghost target = unpadded(padded@, 4 * width as int, padded_bpr as int, height as int);
    proof {
        assert(target.len() == height * (4 * width));
        assert(height * (4 * width) == 4 * width * height) by (nonlinear_arith);
    }
    let mut out: Vec<u8> = Vec::new();
    let mut row: usize = 0;
    while row < h
        invariant
            row <= h,
            h == height,
            bpr == 4 * width,
            pbr == padded_bpr,
            bpr <= pbr,
            padded@.len() == padded_bpr * height,
            total == padded@.len(),
            target == unpadded(padded@, bpr as int, pbr as int, height as int),
            target.len() == height * bpr,
            out@.len() == row * bpr,
            forall|j: int| 0 <= j < out@.len() ==> out@[j] == target[j],
        decreases h - row,
    {
        proof {
            assert((row + 1) * bpr <= height * bpr) by (nonlinear_arith)
                requires
                    row < height,
                    bpr >= 0,
            ;
        }
        let mut col: usize = 0;
        while col < bpr
            invariant
                col <= bpr,
                row < h,
                h == height,
                bpr == 4 * width,
                pbr == padded_bpr,
                bpr <= pbr,
                padded@.len() == padded_bpr * height,
                total == padded@.len(),
                target == unpadded(padded@, bpr as int, pbr as int, height as int),
                target.len() == height * bpr,
                (row + 1) * bpr <= height * bpr,
                out@.len() == row * bpr + col,
                forall|j: int| 0 <= j < out@.len() ==> out@[j] == target[j],
            decreases bpr - col,
        {
            proof {
                assert(row * pbr + col < height * pbr) by (nonlinear_arith)
                    requires
                        row < height,
                        col < pbr,
                        pbr > 0,
                ;
                assert(height * pbr == pbr * height) by (nonlinear_arith);
                assert(row * pbr + col < total);
                let j = row * bpr + col;
                assert(j < height * bpr) by (nonlinear_arith)
                    requires
                        row < height,
                        col < bpr,
                        bpr > 0,
                        j == row * bpr + col,
                ;
                vstd::arithmetic::div_mod::lemma_fundamental_div_mod_converse(
                    j as int,
                    bpr as int,
                    row as int,
                    col as int,
                );
                assert(target[j as int] == padded@[row * pbr + col]);
            }
            let src: usize = row * pbr + col;
            out.push(padded[src]);
            col += 1;
        }
        row += 1;
        proof {
            assert(row * bpr == (row - 1) * bpr + bpr) by (nonlinear_arith);
        }
    }
    proof {
        assert(out@.len() == height * bpr);
        assert((height as int) * (4 * width as int) == 4 * (width as int) * (height as int))
            by (nonlinear_arith);
    }
    out
}

} // verus!
