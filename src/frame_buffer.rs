use vstd::prelude::*;
use vstd::arithmetic::div_mod::lemma_fundamental_div_mod_converse;
use vstd::arithmetic::mul::lemma_mul_is_commutative;
use crate::vector::Vec2D;

verus! {

/// What a frame buffer refuses.
#[derive(Clone, Copy, Debug, PartialEq, Eq)]
pub enum FrameBufferError {
    /// The new pixels are not as many as the pixels held.
    InvalidLength,
}

/// A grid of pixels, stored row after row, with its width and height.
#[derive(Clone, Debug)]
pub struct FrameBuffer<C> {
    buffer: Vec<C>,
    size: Vec2D<u32>,
}

/// The number of pixels in a grid of the given size.
pub open spec fn area(size: Vec2D<u32>) -> nat {
    (size.x as nat) * (size.y as nat)
}

/// Bytes per pixel: red, green, blue, and an opaque alpha when asked for.
pub open spec fn stride(transparency: bool) -> nat {
    if transparency { 4 } else { 3 }
}

/// Byte `c` of a pixel: its red, green and blue channel, then 255.
pub open spec fn channel_byte(p: (u8, u8, u8), c: int) -> u8 {
    if c == 0 {
        p.0
    } else if c == 1 {
        p.1
    } else if c == 2 {
        p.2
    } else {
        255
    }
}

/// The pixels laid out one after another, each as `stride` bytes.
pub open spec fn packed(pixels: Seq<(u8, u8, u8)>, transparency: bool) -> Seq<u8> {
    let s = stride(transparency) as int;
    Seq::new(
        (s * pixels.len()) as nat,
        |i: int| channel_byte(pixels[i / s], i % s),
    )
}

impl<C: Copy> FrameBuffer<C> {
    pub closed spec fn spec_size(&self) -> Vec2D<u32> {
        self.size
    }

    pub closed spec fn pixels(&self) -> Seq<C> {
        self.buffer@
    }

    /// A buffer of the given size with every pixel set to `fill`.
    pub fn new(size: Vec2D<u32>, fill: C) -> (r: Self)
        requires
            area(size) <= usize::MAX,
        ensures
            r.spec_size() == size,
            r.pixels() == Seq::new(area(size), |_i: int| fill),
    {
        let n = (size.x as usize) * (size.y as usize);
        let mut buffer: Vec<C> = Vec::new();
        let mut i: usize = 0;
        while i < n
            invariant
                i <= n,
                buffer@ == Seq::new(i as nat, |_i: int| fill),
            decreases n - i,
        {
            buffer.push(fill);
            i = i + 1;
            assert(buffer@ =~= Seq::new(i as nat, |_i: int| fill));
        }
        FrameBuffer { buffer, size }
    }

    /// A buffer that only records a size and holds no pixels.
    pub fn new_dummy(size: Vec2D<u32>) -> (r: Self)
        ensures
            r.spec_size() == size,
            r.pixels() == Seq::<C>::empty(),
    {
        FrameBuffer { buffer: Vec::new(), size }
    }

    pub fn size(&self) -> (r: &Vec2D<u32>)
        ensures
            *r == self.spec_size(),
    {
        &self.size
    }

    pub fn buffer(&self) -> (r: &Vec<C>)
        ensures
            r@ == self.pixels(),
    {
        &self.buffer
    }

    /// Replaces every pixel, when the new pixels are exactly as many.
    pub fn set_buffer(&mut self, buffer: &Vec<C>) -> (r: Result<(), FrameBufferError>)
        ensures
            final(self).spec_size() == old(self).spec_size(),
            r is Ok <==> buffer@.len() == old(self).pixels().len(),
            r is Ok ==> final(self).pixels() == buffer@,
            r is Err ==> r == Err::<(), _>(FrameBufferError::InvalidLength) && final(self).pixels()
                == old(self).pixels(),
    {
        if self.buffer.len() == buffer.len() {
            let mut copy: Vec<C> = Vec::new();
            let mut i: usize = 0;
            while i < buffer.len()
                invariant
                    i <= buffer.len(),
                    copy@ == buffer@.subrange(0, i as int),
                decreases buffer.len() - i,
            {
                copy.push(buffer[i]);
                i = i + 1;
                assert(copy@ =~= buffer@.subrange(0, i as int));
            }
            assert(copy@ =~= buffer@);
            self.buffer = copy;
            Ok(())
        } else {
            Err(FrameBufferError::InvalidLength)
        }
    }
}

proof fn lemma_slot(i: int, c: int, s: int)
    requires
        0 <= i,
        0 <= c < s,
    ensures
        (s * i + c) / s == i,
        (s * i + c) % s == c,
{
    lemma_mul_is_commutative(s, i);
    lemma_fundamental_div_mod_converse(s * i + c, s, i, c);
}

/// A frame of `w` by `h` pixels is `4·w·h` bytes with alpha and `3·w·h`
/// without.
pub proof fn lemma_frame_bytes(fb: FrameBuffer<(u8, u8, u8)>, transparency: bool)
    requires
        fb.pixels().len() == area(fb.spec_size()),
    ensures
        packed(fb.pixels(), transparency).len() == if transparency {
            4 * (fb.spec_size().x as nat) * (fb.spec_size().y as nat)
        } else {
            3 * (fb.spec_size().x as nat) * (fb.spec_size().y as nat)
        },
{
    let (w, h) = (fb.spec_size().x as nat, fb.spec_size().y as nat);
    assert(4 * (w * h) == 4 * w * h && 3 * (w * h) == 3 * w * h) by (nonlinear_arith);
}

impl FrameBuffer<(u8, u8, u8)> {
    /// The pixels as bytes, row after row: red, green, blue, and 255 for alpha
    /// when `transparency` is set; with them the size of the grid.
    pub fn to_vec_u8(&self, transparency: bool) -> (r: (Vec<u8>, Vec2D<u32>))
        requires
            stride(transparency) * self.pixels().len() <= usize::MAX,
        ensures
            r.0@ == packed(self.pixels(), transparency),
            r.0@.len() == stride(transparency) * self.pixels().len(),
            r.1 == self.spec_size(),
    {
        let s: usize = if transparency { 4 } else { 3 };
        let ghost px = self.buffer@;
        let mut out: Vec<u8> = Vec::new();
        let mut i: usize = 0;
        while i < self.buffer.len()
            invariant
                i <= px.len(),
                px == self.buffer@,
                s == stride(transparency),
                out@.len() == s * i,
                forall|j: int|
                    0 <= j < s * i ==> #[trigger] out@[j] == channel_byte(
                        px[j / s as int],
                        j % s as int,
                    ),
            decreases px.len() - i,
        {
            let p = self.buffer[i];
            let ghost before = out@;
            out.push(p.0);
            out.push(p.1);
            out.push(p.2);
            if transparency {
                out.push(255);
            }
            proof {
                assert forall|j: int| 0 <= j < s * (i + 1) implies #[trigger] out@[j]
                    == channel_byte(px[j / s as int], j % s as int) by {
                    if j >= s * i {
                        lemma_slot(i as int, j - s * i, s as int);
                    } else {
                        assert(out@[j] == before[j]);
                    }
                }
            }
            i = i + 1;
        }
        assert(out@ =~= packed(px, transparency));
        (out, self.size)
    }
}

} // verus!
