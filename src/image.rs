use vstd::prelude::*;
use crate::vector::Vec2D;

verus! {

/// The bytes grouped three by three into red, green and blue; bytes left over
/// after the last whole group are ignored.
pub open spec fn triples(data: Seq<u8>) -> Seq<(u8, u8, u8)> {
    Seq::new(data.len() / 3, |i: int| (data[3 * i], data[3 * i + 1], data[3 * i + 2]))
}

/// Groups raw image bytes into pixels of three channels each.
pub fn rgb_triples(data: &Vec<u8>) -> (r: Vec<(u8, u8, u8)>)
    ensures
        r@ == triples(data@),
{
    let len = data.len();
    let n = len / 3;
    let mut out: Vec<(u8, u8, u8)> = Vec::new();
    let mut i: usize = 0;
    while i < n
        invariant
            len == data@.len(),
            n == len / 3,
            i <= n,
            out@ == triples(data@).subrange(0, i as int),
        decreases n - i,
    {
        proof {
            vstd::arithmetic::div_mod::lemma_fundamental_div_mod(len as int, 3);
            assert(3 * (i as int) + 2 < len);
        }
        out.push((data[3 * i], data[3 * i + 1], data[3 * i + 2]));
        i = i + 1;
        assert(out@ =~= triples(data@).subrange(0, i as int));
    }
    assert(out@ =~= triples(data@));
    out
}

/// A read-only raster of pixels, stored row after row.
#[derive(Clone, Debug)]
pub struct ImageData<C> {
    data: Vec<C>,
    size: Vec2D<u32>,
}

impl<C> ImageData<C> {
    pub closed spec fn pixels(&self) -> Seq<C> {
        self.data@
    }

    pub closed spec fn spec_size(&self) -> Vec2D<u32> {
        self.size
    }

    /// The raster holds exactly one pixel for each place of its grid.
    pub open spec fn wf(&self) -> bool {
        &&& self.spec_size().x > 0
        &&& self.pixels().len() == (self.spec_size().x as nat) * (self.spec_size().y as nat)
    }

    /// A raster of the given width over the pixels; its height is what the
    /// pixels fill.
    pub fn new(width: u32, pixels: Vec<C>) -> (r: Self)
        requires
            width > 0,
            pixels@.len() % (width as nat) == 0,
            pixels@.len() / (width as nat) <= u32::MAX,
        ensures
            r.wf(),
            r.pixels() == pixels@,
            r.spec_size() == (Vec2D { x: width, y: (pixels@.len() / (width as nat)) as u32 }),
    {
        let height = (pixels.len() / (width as usize)) as u32;
        proof {
            vstd::arithmetic::div_mod::lemma_fundamental_div_mod(pixels@.len() as int, width as int);
            assert((width as nat) * (height as nat) == (width as int) * (pixels@.len() as int
                / width as int));
        }
        ImageData { data: pixels, size: Vec2D::new(width, height) }
    }

    pub fn size(&self) -> (r: Vec2D<u32>)
        ensures
            r == self.spec_size(),
    {
        Vec2D { x: self.size.x, y: self.size.y }
    }

    /// The pixel in column `at.x` of row `at.y`.
    pub fn pixel(&self, at: Vec2D<u32>) -> (r: &C)
        requires
            self.wf(),
            at.x < self.spec_size().x,
            at.y < self.spec_size().y,
        ensures
            *r == self.pixels()[(at.y as nat) * (self.spec_size().x as nat) + at.x],
    {
        proof {
            let (w, h) = (self.size.x as int, self.size.y as int);
            assert((at.y as int) * w + (at.x as int) < w * h) by (nonlinear_arith)
                requires
                    0 <= at.y < h,
                    0 <= at.x < w,
            ;
            assert((at.y as int) * w >= 0) by (nonlinear_arith)
                requires
                    0 <= at.y,
                    0 <= w,
            ;
            assert(self.data@.len() == w * h);
        }
        let len = self.data.len();
        let i = (at.y as usize) * (self.size.x as usize) + (at.x as usize);
        assert(i < len);
        &self.data[i]
    }

    /// The nearest place on the grid: a column or row past the last is moved
    /// back onto the last.
    pub fn clamp_index(&self, at: Vec2D<u32>) -> (r: Vec2D<u32>)
        requires
            self.wf(),
            self.spec_size().y > 0,
        ensures
            r.x == if at.x < self.spec_size().x { at.x } else { (self.spec_size().x - 1) as u32 },
            r.y == if at.y < self.spec_size().y { at.y } else { (self.spec_size().y - 1) as u32 },
            r.x < self.spec_size().x && r.y < self.spec_size().y,
    {
        let mut out = Vec2D { x: at.x, y: at.y };
        if out.x >= self.size.x {
            out.x = self.size.x - 1;
        }
        if out.y >= self.size.y {
            out.y = self.size.y - 1;
        }
        out
    }
}

} // verus!
