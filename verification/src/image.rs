//! The image surface: an in-memory pixel buffer of 32-bit `0x00RRGGBB` words,
//! row-major, origin top-left, y growing downward, optionally backed by
//! shared memory.

use vstd::prelude::*;

use crate::error::MlxError;

verus! {

/// Background value that `clear` writes into every pixel.
pub const BACKGROUND: u32 = 0;

/// Bytes each pixel occupies: one 32-bit `0x00RRGGBB` word.
pub const BYTES_PER_PIXEL: u32 = 4;

/// Mathematical model of a surface: its dimensions and the row-major pixel
/// grid.
#[verifier::ext_equal]
pub ghost struct SurfaceView {
    pub width: nat,
    pub height: nat,
    pub pixels: Seq<u32>,
    pub shared: bool,
}

impl SurfaceView {
    /// Well-formed: the buffer holds exactly `width * height` pixels.
    pub open spec fn wf(self) -> bool {
        self.pixels.len() == self.width * self.height
    }

    /// `(x, y)` lies inside the surface.
    pub open spec fn in_bounds(self, x: int, y: int) -> bool {
        0 <= x < self.width && 0 <= y < self.height
    }

    /// Row-major buffer index of `(x, y)`.
    pub open spec fn index_of(self, x: int, y: int) -> int {
        y * self.width + x
    }

    /// The color stored at `(x, y)`.
    pub open spec fn pixel(self, x: int, y: int) -> u32 {
        self.pixels[self.index_of(x, y)]
    }

    /// The surface after writing `color` at `(x, y)`.
    pub open spec fn put(self, x: int, y: int, color: u32) -> SurfaceView {
        SurfaceView { pixels: self.pixels.update(self.index_of(x, y), color), ..self }
    }

    /// The surface with every pixel reset to the background value.
    pub open spec fn cleared(self) -> SurfaceView {
        SurfaceView { pixels: Seq::new(self.pixels.len(), |i: int| BACKGROUND), ..self }
    }

    /// Bytes in one pixel row.
    pub open spec fn stride(self) -> nat {
        (self.width * BYTES_PER_PIXEL) as nat
    }
}

/// Proof that an in-bounds coordinate indexes inside the buffer.
pub proof fn lemma_index_in_range(v: SurfaceView, x: int, y: int)
    requires
        v.wf(),
        v.in_bounds(x, y),
    ensures
        0 <= v.index_of(x, y) < v.pixels.len(),
{
    assert(y * v.width + x < v.width * v.height) by (nonlinear_arith)
        requires
            0 <= x < v.width,
            0 <= y < v.height,
    ;
}

/// Law: writing a pixel in bounds and reading the same coordinate back yields
/// the written color unchanged; every other pixel keeps its value, and the
/// buffer keeps its size, so no adjacent memory is touched.
pub proof fn lemma_put_then_read(v: SurfaceView, x: int, y: int, color: u32)
    requires
        v.wf(),
        v.in_bounds(x, y),
    ensures
        v.put(x, y, color).wf(),
        v.put(x, y, color).pixel(x, y) == color,
        v.put(x, y, color).pixels.len() == v.pixels.len(),
        forall|x2: int, y2: int|
            v.in_bounds(x2, y2) && (x2 != x || y2 != y) ==> v.put(x, y, color).pixel(x2, y2)
                == v.pixel(x2, y2),
{
    lemma_index_in_range(v, x, y);
    assert forall|x2: int, y2: int|
        v.in_bounds(x2, y2) && (x2 != x || y2 != y) implies v.put(x, y, color).pixel(x2, y2)
        == v.pixel(x2, y2) by {
        lemma_index_in_range(v, x2, y2);
        assert(v.index_of(x2, y2) != v.index_of(x, y)) by (nonlinear_arith)
            requires
                0 <= x < v.width,
                0 <= y < v.height,
                0 <= x2 < v.width,
                0 <= y2 < v.height,
                x2 != x || y2 != y,
        ;
    }
}

/// Law: after a clear, reading any in-bounds pixel yields the background
/// value.
pub proof fn lemma_clear_then_read(v: SurfaceView, x: int, y: int)
    requires
        v.wf(),
        v.in_bounds(x, y),
    ensures
        v.cleared().wf(),
        v.cleared().pixel(x, y) == BACKGROUND,
{
    lemma_index_in_range(v, x, y);
}

/// Law: a well-formed surface's row stride times its height never exceeds the
/// backing buffer's length in bytes.
pub proof fn lemma_stride_within_backing(v: SurfaceView)
    requires
        v.wf(),
    ensures
        v.stride() * v.height <= v.pixels.len() * BYTES_PER_PIXEL,
{
    assert((v.width * BYTES_PER_PIXEL) * v.height <= (v.width * v.height) * BYTES_PER_PIXEL)
        by (nonlinear_arith);
}

/// A pixel buffer in `0x00RRGGBB` format. `shared` records whether the
/// backing storage is a shared-memory segment (the segment itself is managed
/// by the embedding program) or private heap memory.
#[derive(Debug)]
pub struct Surface {
    width: u32,
    height: u32,
    shared: bool,
    pixels: Vec<u32>,
}

impl View for Surface {
    type V = SurfaceView;

    closed spec fn view(&self) -> SurfaceView {
        SurfaceView {
            width: self.width as nat,
            height: self.height as nat,
            pixels: self.pixels@,
            shared: self.shared,
        }
    }
}

impl Surface {
    /// Allocate a surface of `width * height` background pixels; `shared`
    /// records the negotiated transport. Fails with an allocation error when
    /// the dimensions are zero or the buffer cannot be addressed.
    pub fn create(width: u32, height: u32, shared: bool) -> (r: Result<Surface, MlxError>)
        ensures
            r is Ok <==> (0 < width && 0 < height && width * height <= usize::MAX),
            r matches Ok(s) ==> s@.wf() && s@.width == width && s@.height == height && s@.shared
                == shared && s@.pixels == Seq::new((width * height) as nat, |i: int| BACKGROUND),
            r matches Err(e) ==> e == (MlxError::SurfaceAllocation { width, height }),
    {
        if width == 0 || height == 0 {
            return Err(MlxError::SurfaceAllocation { width, height });
        }
        let n = match (width as usize).checked_mul(height as usize) {
            Some(n) => n,
            None => {
                return Err(MlxError::SurfaceAllocation { width, height });
            },
        };
        let mut pixels: Vec<u32> = Vec::new();
        let mut i: usize = 0;
        while i < n
            invariant
                i <= n,
                pixels@.len() == i,
                forall|j: int| 0 <= j < i ==> pixels@[j] == BACKGROUND,
            decreases n - i,
        {
            pixels.push(BACKGROUND);
            i += 1;
        }
        proof {
            assert(pixels@ =~= Seq::new((width * height) as nat, |i: int| BACKGROUND));
        }
        Ok(Surface { width, height, shared, pixels })
    }

    /// The surface's fixed width in pixels.
    pub fn width(&self) -> (w: u32)
        ensures
            w == self@.width,
    {
        self.width
    }

    /// The surface's fixed height in pixels.
    pub fn height(&self) -> (h: u32)
        ensures
            h == self@.height,
    {
        self.height
    }

    /// The raw row-major pixel words, for handing to the display transport.
    pub fn pixel_data(&self) -> (p: &Vec<u32>)
        ensures
            p@ == self@.pixels,
    {
        &self.pixels
    }

    /// Whether the surface is backed by shared memory.
    pub fn is_shared(&self) -> (s: bool)
        ensures
            s == self@.shared,
    {
        self.shared
    }

    /// Write `color` at `(x, y)`. An out-of-bounds coordinate is a reported
    /// error and leaves the buffer untouched; it never writes outside the
    /// buffer.
    pub fn put_pixel(&mut self, x: u32, y: u32, color: u32) -> (r: Result<(), MlxError>)
        requires
            old(self)@.wf(),
        ensures
            final(self)@.wf(),
            r is Ok <==> old(self)@.in_bounds(x as int, y as int),
            old(self)@.in_bounds(x as int, y as int) ==> final(self)@ == old(self)@.put(
                x as int,
                y as int,
                color,
            ),
            !old(self)@.in_bounds(x as int, y as int) ==> *final(self) == *old(self) && r == Err::<
                (),
                MlxError,
            >(MlxError::OutOfBounds),
    {
        if x < self.width && y < self.height {
            let n = self.pixels.len();
            proof {
                lemma_index_in_range(self@, x as int, y as int);
            }
            let idx: usize = (y as usize) * (self.width as usize) + (x as usize);
            self.pixels.set(idx, color);
            proof {
                assert(self@ =~= old(self)@.put(x as int, y as int, color));
            }
            Ok(())
        } else {
            Err(MlxError::OutOfBounds)
        }
    }

    /// Read the color at `(x, y)`, or nothing when the coordinate is out of
    /// bounds.
    pub fn get_pixel(&self, x: u32, y: u32) -> (r: Option<u32>)
        requires
            self@.wf(),
        ensures
            r is Some <==> self@.in_bounds(x as int, y as int),
            self@.in_bounds(x as int, y as int) ==> r == Some(self@.pixel(x as int, y as int)),
    {
        if x < self.width && y < self.height {
            let n = self.pixels.len();
            proof {
                lemma_index_in_range(self@, x as int, y as int);
            }
            let idx: usize = (y as usize) * (self.width as usize) + (x as usize);
            Some(self.pixels[idx])
        } else {
            None
        }
    }

    /// Reset every pixel to the background value.
    pub fn clear(&mut self)
        requires
            old(self)@.wf(),
        ensures
            final(self)@.wf(),
            final(self)@ == old(self)@.cleared(),
    {
        let n = self.pixels.len();
        let mut i: usize = 0;
        while i < n
            invariant
                i <= n,
                n == self.pixels@.len(),
                self@.width == old(self)@.width,
                self@.height == old(self)@.height,
                self@.shared == old(self)@.shared,
                forall|j: int| 0 <= j < i ==> self.pixels@[j] == BACKGROUND,
            decreases n - i,
        {
            self.pixels.set(i, BACKGROUND);
            i += 1;
        }
        proof {
            assert(self@ =~= old(self)@.cleared());
        }
    }
}

} // verus!
