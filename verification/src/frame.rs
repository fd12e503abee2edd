use vstd::prelude::*;

verus! {

/// One pixel's color, an 8-bit value per channel.
#[derive(Clone, Copy, PartialEq, Eq, Structural, Debug)]
pub struct Rgb {
    pub r: u8,
    pub g: u8,
    pub b: u8,
}

/// The flat byte image of a sequence of pixels: the three channels of each
/// pixel in order, pixel after pixel.
pub open spec fn flat_bytes(ps: Seq<Rgb>) -> Seq<u8>
    decreases ps.len(),
{
    if ps.len() == 0 {
        Seq::empty()
    } else {
        flat_bytes(ps.drop_last()) + seq![ps.last().r, ps.last().g, ps.last().b]
    }
}

/// Each pixel of a flattened sequence stands at three times its index,
/// channels in r, g, b order: the byte layout is row-major when the pixels
/// are given row by row.
pub proof fn lemma_flat_bytes_at(ps: Seq<Rgb>, k: int)
    requires
        0 <= k < ps.len(),
    ensures
        flat_bytes(ps).len() == 3 * ps.len(),
        flat_bytes(ps)[3 * k] == ps[k].r,
        flat_bytes(ps)[3 * k + 1] == ps[k].g,
        flat_bytes(ps)[3 * k + 2] == ps[k].b,
    decreases ps.len(),
{
    lemma_flat_bytes_len(ps);
    if k < ps.len() - 1 {
        lemma_flat_bytes_at(ps.drop_last(), k);
    }
}

/// A flattened sequence holds three bytes per pixel.
pub proof fn lemma_flat_bytes_len(ps: Seq<Rgb>)
    ensures
        flat_bytes(ps).len() == 3 * ps.len(),
    decreases ps.len(),
{
    if ps.len() > 0 {
        lemma_flat_bytes_len(ps.drop_last());
    }
}

/// A frame being assembled: a raster of fixed dimensions and the bytes of
/// the pixels pushed so far, three per pixel, in the order they came.
pub struct PixelBuffer {
    width: u32,
    height: u32,
    data: Vec<u8>,
}

impl PixelBuffer {
    /// Width of the raster, in pixels.
    pub closed spec fn spec_width(&self) -> int {
        self.width as int
    }

    /// Height of the raster, in pixels.
    pub closed spec fn spec_height(&self) -> int {
        self.height as int
    }

    /// The bytes assembled so far.
    pub closed spec fn bytes(&self) -> Seq<u8> {
        self.data@
    }

    /// How many whole pixels have been pushed.
    pub open spec fn filled(&self) -> int {
        self.bytes().len() as int / 3
    }

    /// The buffer holds whole pixels only, and no more than the raster has.
    pub open spec fn wf(&self) -> bool {
        &&& self.bytes().len() == 3 * self.filled()
        &&& self.filled() <= self.spec_width() * self.spec_height()
    }

    /// Every pixel of the raster has been pushed.
    pub open spec fn complete(&self) -> bool {
        self.filled() == self.spec_width() * self.spec_height()
    }

    /// The pixel that was pushed `k`-th.
    pub open spec fn pixel(&self, k: int) -> Rgb {
        Rgb { r: self.bytes()[3 * k], g: self.bytes()[3 * k + 1], b: self.bytes()[3 * k + 2] }
    }

    /// An empty buffer for a raster of the given dimensions.
    pub fn new(width: u32, height: u32) -> (buf: Self)
        ensures
            buf.wf(),
            buf.spec_width() == width,
            buf.spec_height() == height,
            buf.bytes() == Seq::<u8>::empty(),
    {
        let buf = PixelBuffer { width, height, data: Vec::new() };
        proof {
            assert(buf.bytes() =~= Seq::<u8>::empty());
        }
        buf
    }

    /// Width of the raster, in pixels.
    pub fn width(&self) -> (w: u32)
        ensures
            w == self.spec_width(),
    {
        self.width
    }

    /// Height of the raster, in pixels.
    pub fn height(&self) -> (h: u32)
        ensures
            h == self.spec_height(),
    {
        self.height
    }

    /// How many bytes have been assembled so far.
    pub fn byte_len(&self) -> (n: usize)
        ensures
            n == self.bytes().len(),
    {
        self.data.len()
    }

    /// Whether every pixel of the raster has been pushed.
    pub fn is_complete(&self) -> (c: bool)
        requires
            self.wf(),
        ensures
            c == self.complete(),
    {
        let pixels: usize = self.data.len() / 3;
        proof {
            assert(self.data@.len() as int / 3 == self.filled());
            assert((self.width as int) * (self.height as int) <= u64::MAX) by (nonlinear_arith)
                requires
                    self.width <= u32::MAX,
                    self.height <= u32::MAX,
            ;
        }
        let cells: u64 = (self.width as u64) * (self.height as u64);
        (pixels as u64) == cells
    }

    /// Append one pixel: its three channels go to the end of the buffer.
    pub fn push_pixel(&mut self, p: Rgb)
        requires
            old(self).wf(),
            !old(self).complete(),
        ensures
            final(self).wf(),
            final(self).spec_width() == old(self).spec_width(),
            final(self).spec_height() == old(self).spec_height(),
            final(self).bytes() == old(self).bytes() + seq![p.r, p.g, p.b],
            final(self).filled() == old(self).filled() + 1,
    {
        self.data.push(p.r);
        self.data.push(p.g);
        self.data.push(p.b);
        proof {
            assert(self.bytes() =~= old(self).bytes() + seq![p.r, p.g, p.b]);
        }
    }

    /// The channels of the pixel at column `x` of row `y`, read from the
    /// row-major byte layout.
    pub fn rgb_at(&self, x: u32, y: u32) -> (p: Rgb)
        requires
            self.wf(),
            self.complete(),
            x < self.spec_width(),
            y < self.spec_height(),
        ensures
            p == self.pixel(y * self.spec_width() + x),
    {
        let len: usize = self.data.len();
        proof {
            assert(y * self.spec_width() + x < self.spec_width() * self.spec_height())
                by (nonlinear_arith)
                requires
                    0 <= x < self.spec_width(),
                    0 <= y < self.spec_height(),
            ;
            assert(len == 3 * (self.spec_width() * self.spec_height()));
        }
        let k: usize = (y as usize) * (self.width as usize) + (x as usize);
        let r: u8 = self.data[3 * k];
        let g: u8 = self.data[3 * k + 1];
        let b: u8 = self.data[3 * k + 2];
        Rgb { r, g, b }
    }

    /// Hand the assembled bytes out; a complete buffer yields exactly
    /// three bytes per raster pixel.
    pub fn into_bytes(self) -> (v: Vec<u8>)
        ensures
            v@ == self.bytes(),
            self.wf() && self.complete() ==> v@.len() == 3 * self.spec_width()
                * self.spec_height(),
    {
        proof {
            if self.wf() && self.complete() {
                assert(3 * (self.spec_width() * self.spec_height()) == 3 * self.spec_width()
                    * self.spec_height()) by (nonlinear_arith);
            }
        }
        self.data
    }
}

/// A complete buffer holds exactly three bytes per raster pixel, so a
/// finished frame of a given geometry always has the same byte count.
pub proof fn lemma_complete_buffer_byte_count(buf: PixelBuffer)
    requires
        buf.wf(),
        buf.complete(),
    ensures
        buf.bytes().len() == 3 * buf.spec_width() * buf.spec_height(),
{
    assert(3 * (buf.spec_width() * buf.spec_height()) == 3 * buf.spec_width()
        * buf.spec_height()) by (nonlinear_arith);
}

/// Assemble a frame: given one color per raster pixel, in row-major order,
/// lay their channels out flat.  The result is determined by the pixel
/// sequence alone, and the pixel given `k`-th stands at byte offset `3 k`.
pub fn assemble_frame(width: u32, height: u32, pixels: &Vec<Rgb>) -> (buf: PixelBuffer)
    requires
        pixels@.len() == width * height,
    ensures
        buf.wf(),
        buf.complete(),
        buf.spec_width() == width,
        buf.spec_height() == height,
        buf.bytes() == flat_bytes(pixels@),
        forall|k: int| 0 <= k < pixels@.len() ==> buf.pixel(k) == pixels@[k],
{
    let mut buf = PixelBuffer::new(width, height);
    proof {
        assert(flat_bytes(pixels@.subrange(0, 0)) =~= Seq::<u8>::empty());
    }
    let n: usize = pixels.len();
    let mut i: usize = 0;
    while i < n
        invariant
            n == pixels@.len(),
            i <= n,
            pixels@.len() == width * height,
            buf.wf(),
            buf.spec_width() == width,
            buf.spec_height() == height,
            buf.filled() == i,
            buf.bytes() == flat_bytes(pixels@.subrange(0, i as int)),
        decreases n - i,
    {
        proof {
            lemma_flat_bytes_len(pixels@.subrange(0, i as int));
            let next = pixels@.subrange(0, i + 1);
            assert(next.drop_last() =~= pixels@.subrange(0, i as int));
            assert(flat_bytes(next) == flat_bytes(pixels@.subrange(0, i as int))
                + seq![pixels@[i as int].r, pixels@[i as int].g, pixels@[i as int].b]);
        }
        buf.push_pixel(pixels[i]);
        i = i + 1;
    }
    proof {
        assert(pixels@.subrange(0, n as int) =~= pixels@);
        assert forall|k: int| 0 <= k < pixels@.len() implies buf.pixel(k) == pixels@[k] by {
            lemma_flat_bytes_at(pixels@, k);
        }
    }
    buf
}

} // verus!
