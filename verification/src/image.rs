//! Host-resident image model: a row-major RGBA8 pixel buffer.
//!
//! The rendered image read back from the GPU target is held in this form
//! before it is encoded to a file: exactly `width * height` pixels, each of
//! exactly four bytes (red, green, blue, alpha), non-premultiplied, in a
//! linear byte layout.

use vstd::prelude::*;

verus! {

/// One 8-bit-per-channel RGBA pixel, non-premultiplied.
#[derive(Clone, Copy, Debug, PartialEq, Eq, Structural)]
pub struct Rgba {
    pub r: u8,
    pub g: u8,
    pub b: u8,
    pub a: u8,
}

/// A row-major RGBA8 pixel buffer of a fixed resolution.
pub struct Image {
    pub width: u32,
    pub height: u32,
    pub pixels: Vec<Rgba>,
}

impl Image {
    /// The buffer holds exactly one pixel per point of the resolution.
    pub open spec fn wf(self) -> bool {
        self.pixels@.len() == self.width * self.height
    }

    /// The pixel at column `x`, row `y`, in row-major order.
    pub open spec fn spec_pixel(self, x: int, y: int) -> Rgba {
        self.pixels@[y * self.width + x]
    }

    /// An image of the given resolution with every pixel set to `fill`.
    pub fn filled(width: u32, height: u32, fill: Rgba) -> (img: Image)
        requires
            width * height <= usize::MAX,
        ensures
            img.wf(),
            img.width == width,
            img.height == height,
            forall|i: int| 0 <= i < width * height ==> img.pixels@[i] == fill,
    {
        let n: usize = (width as usize) * (height as usize);
        let mut pixels: Vec<Rgba> = Vec::new();
        let mut i: usize = 0;
        while i < n
            invariant
                i <= n,
                pixels@.len() == i,
                forall|j: int| 0 <= j < i ==> pixels@[j] == fill,
            decreases n - i,
        {
            pixels.push(fill);
            i += 1;
        }
        Image { width, height, pixels }
    }

    /// Read one pixel.
    pub fn pixel(&self, x: u32, y: u32) -> (p: Rgba)
        requires
            self.wf(),
            x < self.width,
            y < self.height,
        ensures
            p == self.spec_pixel(x as int, y as int),
    {
        let n: usize = self.pixels.len();
        proof {
            assert((y as int) * (self.width as int) + (x as int) < (self.width as int) * (
            self.height as int)) by (nonlinear_arith)
                requires
                    x < self.width,
                    y < self.height,
            ;
        }
        let idx: usize = (y as usize) * (self.width as usize) + (x as usize);
        self.pixels[idx]
    }

    /// Overwrite one pixel; every other pixel and the resolution are kept.
    pub fn set_pixel(&mut self, x: u32, y: u32, p: Rgba)
        requires
            old(self).wf(),
            x < old(self).width,
            y < old(self).height,
        ensures
            final(self).wf(),
            final(self).width == old(self).width,
            final(self).height == old(self).height,
            final(self).pixels@ == old(self).pixels@.update(
                y * old(self).width + x,
                p,
            ),
    {
        let n: usize = self.pixels.len();
        proof {
            assert((y as int) * (self.width as int) + (x as int) < (self.width as int) * (
            self.height as int)) by (nonlinear_arith)
                requires
                    x < self.width,
                    y < self.height,
            ;
        }
        let idx: usize = (y as usize) * (self.width as usize) + (x as usize);
        self.pixels.set(idx, p);
    }

    /// The linear byte layout of the image: four bytes per pixel, in the
    /// channel order red, green, blue, alpha, rows top to bottom.
    pub fn to_bytes(&self) -> (bytes: Vec<u8>)
        requires
            self.wf(),
        ensures
            bytes@.len() == 4 * self.width * self.height,
            forall|i: int|
                0 <= i < self.pixels@.len() ==> {
                    &&& bytes@[4 * i] == self.pixels@[i].r
                    &&& bytes@[4 * i + 1] == self.pixels@[i].g
                    &&& bytes@[4 * i + 2] == self.pixels@[i].b
                    &&& bytes@[4 * i + 3] == self.pixels@[i].a
                },
    {
        let n: usize = self.pixels.len();
        let mut bytes: Vec<u8> = Vec::new();
        let mut i: usize = 0;
        while i < n
            invariant
                i <= n,
                n == self.pixels@.len(),
                bytes@.len() == 4 * i,
                forall|j: int|
                    0 <= j < i ==> {
                        &&& bytes@[4 * j] == self.pixels@[j].r
                        &&& bytes@[4 * j + 1] == self.pixels@[j].g
                        &&& bytes@[4 * j + 2] == self.pixels@[j].b
                        &&& bytes@[4 * j + 3] == self.pixels@[j].a
                    },
            decreases n - i,
        {
            let p = self.pixels[i];
            bytes.push(p.r);
            bytes.push(p.g);
            bytes.push(p.b);
            bytes.push(p.a);
            i += 1;
        }
        proof {
            assert(4 * ((self.width as int) * (self.height as int)) == 4 * (self.width as int) * (
            self.height as int)) by (nonlinear_arith);
        }
        bytes
    }

    /// Rebuild an image from its linear byte layout. The bytes must be
    /// exactly four per pixel of the given resolution.
    pub fn from_bytes(width: u32, height: u32, bytes: &Vec<u8>) -> (img: Image)
        requires
            bytes@.len() == 4 * width * height,
            width * height <= usize::MAX,
        ensures
            img.wf(),
            img.width == width,
            img.height == height,
            forall|i: int|
                0 <= i < width * height ==> img.pixels@[i] == (Rgba {
                    r: bytes@[4 * i],
                    g: bytes@[4 * i + 1],
                    b: bytes@[4 * i + 2],
                    a: bytes@[4 * i + 3],
                }),
    {
        proof {
            assert(4 * ((width as int) * (height as int)) == 4 * (width as int) * (height as int))
                by (nonlinear_arith);
        }
        let total: usize = bytes.len();
        let n: usize = (width as usize) * (height as usize);
        let mut pixels: Vec<Rgba> = Vec::new();
        let mut i: usize = 0;
        while i < n
            invariant
                i <= n,
                n == width * height,
                total == bytes@.len(),
                bytes@.len() == 4 * (width * height),
                pixels@.len() == i,
                forall|j: int|
                    0 <= j < i ==> pixels@[j] == (Rgba {
                        r: bytes@[4 * j],
                        g: bytes@[4 * j + 1],
                        b: bytes@[4 * j + 2],
                        a: bytes@[4 * j + 3],
                    }),
            decreases n - i,
        {
            let base: usize = 4 * i;
            let p = Rgba {
                r: bytes[base],
                g: bytes[base + 1],
                b: bytes[base + 2],
                a: bytes[base + 3],
            };
            pixels.push(p);
            i += 1;
        }
        Image { width, height, pixels }
    }
}

/// Decoding a byte buffer into pixels and re-encoding it gives the buffer
/// back unchanged: the byte layout loses nothing. Stated over the exact
/// contracts of `from_bytes` and `to_bytes`.
pub proof fn lemma_bytes_round_trip(bytes: Seq<u8>, pix: Seq<Rgba>, out: Seq<u8>)
    requires
        bytes.len() == 4 * pix.len(),
        forall|i: int|
            0 <= i < pix.len() ==> pix[i] == (Rgba {
                r: bytes[4 * i],
                g: bytes[4 * i + 1],
                b: bytes[4 * i + 2],
                a: bytes[4 * i + 3],
            }),
        out.len() == 4 * pix.len(),
        forall|i: int|
            0 <= i < pix.len() ==> {
                &&& out[4 * i] == pix[i].r
                &&& out[4 * i + 1] == pix[i].g
                &&& out[4 * i + 2] == pix[i].b
                &&& out[4 * i + 3] == pix[i].a
            },
    ensures
        out =~= bytes,
{
    assert forall|j: int| 0 <= j < out.len() implies out[j] == bytes[j] by {
        let i = j / 4;
        let rem = j % 4;
        vstd::arithmetic::div_mod::lemma_fundamental_div_mod(j, 4);
        assert(0 <= i < pix.len());
        assert(pix[i] == (Rgba {
            r: bytes[4 * i],
            g: bytes[4 * i + 1],
            b: bytes[4 * i + 2],
            a: bytes[4 * i + 3],
        }));
        if rem == 0 {
            assert(j == 4 * i);
            assert(out[4 * i] == pix[i].r);
        } else if rem == 1 {
            assert(j == 4 * i + 1);
            assert(out[4 * i + 1] == pix[i].g);
        } else if rem == 2 {
            assert(j == 4 * i + 2);
            assert(out[4 * i + 2] == pix[i].b);
        } else {
            assert(j == 4 * i + 3);
            assert(out[4 * i + 3] == pix[i].a);
        }
    }
}

} // verus!
