//! A flat buffer of 32-bit `0x00RRGGBB` pixels with basic accessors and a
//! packed 24-bit RGB export for the host's texture upload.

use vstd::prelude::*;

verus! {

/// The sequence of bytes obtained by splitting each pixel of `pixels` into
/// its red, green and blue components, in that order.
pub open spec fn rgb_bytes(pixels: Seq<u32>) -> Seq<u8> {
    Seq::new(
        pixels.len() * 3,
        |i: int|
            {
                let p = pixels[i / 3];
                if i % 3 == 0 {
                    ((p & 0xFF0000) >> 16) as u8
                } else if i % 3 == 1 {
                    ((p & 0x00FF00) >> 8) as u8
                } else {
                    (p & 0x0000FF) as u8
                }
            },
    )
}

/// A `u32` pixel vector with basic getters and setters.
pub struct FrameBuffer {
    buf: Vec<u32>,
}

impl FrameBuffer {
    /// The pixels as a mathematical sequence.
    pub closed spec fn view(self) -> Seq<u32> {
        self.buf@
    }

    /// A buffer of `width * height` pixels, cleared to zero.
    pub fn new(width: usize, height: usize) -> (r: FrameBuffer)
        requires
            width * height <= usize::MAX,
        ensures
            r@ == Seq::new((width * height) as nat, |i: int| 0u32),
    {
        let len = width * height;
        let mut buf: Vec<u32> = Vec::new();
        let mut i: usize = 0;
        while i < len
            invariant
                i <= len,
                buf@ =~= Seq::new(i as nat, |j: int| 0u32),
            decreases len - i,
        {
            buf.push(0);
            i = i + 1;
        }
        proof {
            assert(buf@ =~= Seq::new(len as nat, |j: int| 0u32));
        }
        FrameBuffer { buf }
    }

    /// Whether the buffer holds no pixels.
    pub fn is_empty(&self) -> (r: bool)
        ensures
            r == (self@.len() == 0),
    {
        self.buf.len() == 0
    }

    /// The number of pixels.
    pub fn len(&self) -> (r: usize)
        ensures
            r == self@.len(),
    {
        self.buf.len()
    }

    /// Read the single pixel at `index`.
    pub fn read(&self, index: usize) -> (r: u32)
        requires
            index < self@.len(),
        ensures
            r == self@[index as int],
    {
        self.buf[index]
    }

    /// Write the single pixel `value` at `index`.
    pub fn write(&mut self, index: usize, value: u32)
        requires
            index < old(self)@.len(),
        ensures
            final(self)@ == old(self)@.update(index as int, value),
    {
        self.buf.set(index, value);
    }

    /// A reference to the underlying `u32` vector.
    pub fn raw(&self) -> (r: &Vec<u32>)
        ensures
            r@ == self@,
    {
        &self.buf
    }

    /// The pixels as packed 24-bit RGB bytes, three per pixel.
    pub fn rgb(&self) -> (r: Vec<u8>)
        requires
            self@.len() * 3 <= usize::MAX,
        ensures
            r@ == rgb_bytes(self@),
    {
        let mut result: Vec<u8> = Vec::new();
        let mut i: usize = 0;
        let n = self.buf.len();
        while i < n
            invariant
                i <= n,
                n == self@.len(),
                n * 3 <= usize::MAX,
                result@ =~= rgb_bytes(self@).take(3 * i),
            decreases n - i,
        {
            let pixel = self.buf[i];
            let r8 = ((pixel & 0xFF0000) >> 16) as u8;
            let g8 = ((pixel & 0x00FF00) >> 8) as u8;
            let b8 = (pixel & 0x0000FF) as u8;
            result.push(r8);
            result.push(g8);
            result.push(b8);
            proof {
                assert(result@ =~= rgb_bytes(self@).take(3 * (i + 1)));
            }
            i = i + 1;
        }
        proof {
            assert(result@ =~= rgb_bytes(self@));
        }
        result
    }
}

} // verus!
