use vstd::prelude::*;
use crate::color::Color;

verus! {

/// Why a texture description was rejected at construction.
#[derive(Clone, Copy, Debug, PartialEq, Eq, Structural)]
pub enum TextureError {
    /// A dimension was zero: such a texture has no pixel to sample.
    ZeroDimension,
    /// The pixel vector does not hold exactly width * height entries.
    SizeMismatch,
}

/// Clamps an index to `[0, n)`: the lookup policy for sphere-style
/// texture coordinates, which saturate at the image border.
pub open spec fn clamped_index(i: int, n: int) -> int {
    if i < n {
        i
    } else {
        n - 1
    }
}

/// A decoded image: `width * height` pixels in row-major order with the
/// top-left pixel first. Decoding is the caller's concern; this type only
/// holds pixels already turned into plain colors and answers lookups.
#[derive(Debug)]
pub struct Texture {
    width: usize,
    height: usize,
    data: Vec<Color>,
}

impl Texture {
    /// Both dimensions are positive and the pixel vector holds exactly
    /// one color per grid cell.
    pub closed spec fn wf(&self) -> bool {
        &&& self.width >= 1
        &&& self.height >= 1
        &&& self.data@.len() == self.width * self.height
    }

    pub closed spec fn spec_width(&self) -> int {
        self.width as int
    }

    pub closed spec fn spec_height(&self) -> int {
        self.height as int
    }

    /// The pixel grid, row-major.
    pub closed spec fn pixels(&self) -> Seq<Color> {
        self.data@
    }

    /// Validates a pixel grid and wraps it; rejects a degenerate
    /// description instead of letting a later lookup fail.
    pub fn new(width: usize, height: usize, data: Vec<Color>) -> (result: Result<Texture, TextureError>)
        ensures
            match result {
                Ok(t) => {
                    &&& width >= 1
                    &&& height >= 1
                    &&& data@.len() == width * height
                    &&& t.wf()
                    &&& t.spec_width() == width
                    &&& t.spec_height() == height
                    &&& t.pixels() == data@
                },
                Err(TextureError::ZeroDimension) => width == 0 || height == 0,
                Err(TextureError::SizeMismatch) => width >= 1 && height >= 1
                    && data@.len() != width * height,
            },
    {
        if width == 0 || height == 0 {
            return Err(TextureError::ZeroDimension);
        }
        let n = data.len();
        let cells = match width.checked_mul(height) {
            Some(c) => c,
            None => {
                // The pixel count fits in usize, so it cannot equal an
                // overflowing width * height.
                assert(n < width * height);
                return Err(TextureError::SizeMismatch);
            },
        };
        if n != cells {
            return Err(TextureError::SizeMismatch);
        }
        Ok(Texture { width, height, data })
    }

    pub fn width(&self) -> (w: usize)
        ensures
            w == self.spec_width(),
    {
        self.width
    }

    pub fn height(&self) -> (h: usize)
        ensures
            h == self.spec_height(),
    {
        self.height
    }

    /// The pixel at column `x` of row `y`.
    pub fn pixel_at(&self, x: usize, y: usize) -> (c: Color)
        requires
            self.wf(),
            x < self.spec_width(),
            y < self.spec_height(),
        ensures
            c == self.pixels()[y * self.spec_width() + x],
    {
        let n = self.data.len();
        proof {
            lemma_row_major_in_bounds(x as int, y as int, self.spec_width(), self.spec_height());
        }
        assert(y * self.width + x < n);
        let idx = y * self.width + x;
        self.data[idx]
    }

    /// Lookup with both coordinates clamped to the image border: the
    /// policy used for sphere texture coordinates.
    pub fn pixel_clamped(&self, x: usize, y: usize) -> (c: Color)
        requires
            self.wf(),
        ensures
            c == self.pixels()[clamped_index(y as int, self.spec_height()) * self.spec_width()
                + clamped_index(x as int, self.spec_width())],
    {
        let cx = if x < self.width { x } else { self.width - 1 };
        let cy = if y < self.height { y } else { self.height - 1 };
        self.pixel_at(cx, cy)
    }

    /// Lookup with both coordinates wrapped modulo the image size: the
    /// policy used for cube-face texture coordinates.
    pub fn pixel_wrapped(&self, x: usize, y: usize) -> (c: Color)
        requires
            self.wf(),
        ensures
            c == self.pixels()[(y as int % self.spec_height()) * self.spec_width()
                + (x as int % self.spec_width())],
    {
        let wx = x % self.width;
        let wy = y % self.height;
        self.pixel_at(wx, wy)
    }
}

/// A row-major index stays inside a `width * height` grid.
proof fn lemma_row_major_in_bounds(x: int, y: int, width: int, height: int)
    requires
        0 <= x < width,
        0 <= y < height,
    ensures
        0 <= y * width + x < width * height,
{
    assert(y * width + x < width * height) by (nonlinear_arith)
        requires
            0 <= x < width,
            0 <= y < height,
    ;
    assert(y * width >= 0) by (nonlinear_arith)
        requires
            0 <= y,
            0 < width,
    ;
}

} // verus!
