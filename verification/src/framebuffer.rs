use vstd::prelude::*;

verus! {

/// A pixel buffer: `width * height` packed 24-bit RGB values in row-major
/// order with the top-left pixel first, and a current drawing color that
/// `point` writes. Presenting the buffer in a window is the caller's
/// concern; this type only stores pixels.
#[derive(Debug)]
pub struct Framebuffer {
    width: usize,
    height: usize,
    buffer: Vec<u32>,
    current_color: u32,
}

impl Framebuffer {
    /// The buffer holds exactly one value per pixel of the grid.
    pub closed spec fn wf(&self) -> bool {
        self.buffer@.len() == self.width * self.height
    }

    pub closed spec fn spec_width(&self) -> int {
        self.width as int
    }

    pub closed spec fn spec_height(&self) -> int {
        self.height as int
    }

    /// The pixel grid, row-major.
    pub closed spec fn pixels(&self) -> Seq<u32> {
        self.buffer@
    }

    pub closed spec fn spec_current_color(&self) -> u32 {
        self.current_color
    }

    /// A buffer of the given size with every pixel black and black as the
    /// current drawing color.
    pub fn new(width: usize, height: usize) -> (fb: Framebuffer)
        requires
            width * height <= usize::MAX,
        ensures
            fb.wf(),
            fb.spec_width() == width,
            fb.spec_height() == height,
            fb.spec_current_color() == 0,
            fb.pixels().len() == width * height,
            forall|i: int| 0 <= i < fb.pixels().len() ==> fb.pixels()[i] == 0,
    {
        let mut buffer: Vec<u32> = Vec::new();
        let mut i: usize = 0;
        let cells = width * height;
        while i < cells
            invariant
                i <= cells,
                buffer@.len() == i,
                forall|j: int| 0 <= j < i ==> buffer@[j] == 0,
            decreases cells - i,
        {
            buffer.push(0);
            i = i + 1;
        }
        Framebuffer { width, height, buffer, current_color: 0 }
    }

    pub fn width(&self) -> (w: usize)
        ensures
            w == self.spec_width(),
    {
        self.width
    }

    pub fn height(&self) -> (h: usize)
        ensures
            h == self.spec_height(),
    {
        self.height
    }

    /// Chooses the color that subsequent `point` calls write.
    pub fn set_current_color(&mut self, color: u32)
        ensures
            final(self).spec_current_color() == color,
            final(self).pixels() == old(self).pixels(),
            final(self).spec_width() == old(self).spec_width(),
            final(self).spec_height() == old(self).spec_height(),
            final(self).wf() == old(self).wf(),
    {
        self.current_color = color;
    }

    /// Writes the current color at column `x` of row `y`; every other
    /// pixel keeps its value.
    pub fn point(&mut self, x: usize, y: usize)
        requires
            old(self).wf(),
            x < old(self).spec_width(),
            y < old(self).spec_height(),
        ensures
            final(self).wf(),
            final(self).spec_width() == old(self).spec_width(),
            final(self).spec_height() == old(self).spec_height(),
            final(self).spec_current_color() == old(self).spec_current_color(),
            final(self).pixels() == old(self).pixels().update(
                y * old(self).spec_width() + x,
                old(self).spec_current_color(),
            ),
    {
        let n = self.buffer.len();
        proof {
            lemma_grid_index_in_bounds(x as int, y as int, self.spec_width(), self.spec_height());
        }
        assert(y * self.width + x < n);
        let idx = y * self.width + x;
        self.buffer[idx] = self.current_color;
    }

    /// The whole pixel store, for presentation.
    pub fn get_buffer(&self) -> (buffer: &Vec<u32>)
        ensures
            buffer@ == self.pixels(),
    {
        &self.buffer
    }
}

/// A row-major index stays inside a `width * height` grid.
proof fn lemma_grid_index_in_bounds(x: int, y: int, width: int, height: int)
    requires
        0 <= x < width,
        0 <= y < height,
    ensures
        0 <= y * width + x < width * height,
{
    assert(0 <= y * width + x < width * height) by (nonlinear_arith)
        requires
            0 <= x < width,
            0 <= y < height,
    ;
}

/// The source pixel that nearest-neighbor upscaling copies to the
/// destination column `x` of row `y`.
pub open spec fn upscaled_pixel(
    low: Seq<u32>,
    low_width: int,
    low_height: int,
    high_width: int,
    high_height: int,
    x: int,
    y: int,
) -> u32 {
    low[(y * low_height / high_height) * low_width + (x * low_width / high_width)]
}

/// Nearest-neighbor upscaling by pixel replication: each destination
/// pixel copies the source pixel whose coordinates scale down to it. Used
/// to present a reduced-resolution render in a full-resolution window.
pub fn upscale_framebuffer(
    low_res_buffer: &Vec<u32>,
    low_width: usize,
    low_height: usize,
    high_width: usize,
    high_height: usize,
) -> (high: Vec<u32>)
    requires
        low_res_buffer@.len() == low_width * low_height,
        high_width * high_height <= usize::MAX,
        high_width > 0 && high_height > 0 ==> low_width > 0 && low_height > 0,
        high_height > 0 ==> (high_height - 1) * low_height <= usize::MAX,
        high_width > 0 ==> (high_width - 1) * low_width <= usize::MAX,
    ensures
        high@.len() == high_width * high_height,
        forall|x: int, y: int|
            0 <= x < high_width && 0 <= y < high_height ==> high@[y * high_width + x]
                == #[trigger] upscaled_pixel(
                low_res_buffer@,
                low_width as int,
                low_height as int,
                high_width as int,
                high_height as int,
                x,
                y,
            ),
{
    let mut high: Vec<u32> = Vec::new();
    let mut y: usize = 0;
    while y < high_height
        invariant
            y <= high_height,
            high@.len() == y * high_width,
            low_res_buffer@.len() == low_width * low_height,
            high_width * high_height <= usize::MAX,
            high_width > 0 && high_height > 0 ==> low_width > 0 && low_height > 0,
            high_height > 0 ==> (high_height - 1) * low_height <= usize::MAX,
            high_width > 0 ==> (high_width - 1) * low_width <= usize::MAX,
            forall|x2: int, y2: int|
                0 <= x2 < high_width && 0 <= y2 < y ==> high@[y2 * high_width + x2]
                    == #[trigger] upscaled_pixel(
                    low_res_buffer@,
                    low_width as int,
                    low_height as int,
                    high_width as int,
                    high_height as int,
                    x2,
                    y2,
                ),
        decreases high_height - y,
    {
        proof {
            assert(y * low_height <= (high_height - 1) * low_height) by (nonlinear_arith)
                requires
                    y < high_height,
                    0 <= low_height,
            ;
        }
        let src_y = y * low_height / high_height;
        let n_low = low_res_buffer.len();
        proof {
            if low_height > 0 {
                assert(src_y < low_height) by (nonlinear_arith)
                    requires
                        src_y == y * low_height / (high_height as int),
                        0 <= y < high_height,
                        0 < low_height,
                        0 < high_height,
                ;
            } else {
                assert(src_y == 0) by (nonlinear_arith)
                    requires
                        src_y == y * low_height / (high_height as int),
                        low_height == 0,
                        0 < high_height,
                        0 <= y,
                ;
            }
            assert(src_y * low_width <= n_low) by (nonlinear_arith)
                requires
                    low_height == 0 ==> src_y == 0,
                    low_height > 0 ==> src_y < low_height,
                    n_low == low_width * low_height,
                    0 <= src_y,
                    0 <= low_width,
                    0 <= low_height,
            ;
        }
        let row_base = src_y * low_width;
        let mut x: usize = 0;
        while x < high_width
            invariant
                x <= high_width,
                y < high_height,
                high@.len() == y * high_width + x,
                src_y == y * low_height / (high_height as int),
                low_height > 0 ==> src_y < low_height,
                row_base == src_y * low_width,
                low_res_buffer@.len() == low_width * low_height,
                high_width * high_height <= usize::MAX,
                high_width > 0 ==> low_width > 0 && low_height > 0,
                high_width > 0 ==> (high_width - 1) * low_width <= usize::MAX,
                forall|x2: int, y2: int|
                    0 <= x2 < high_width && 0 <= y2 < y ==> high@[y2 * high_width + x2]
                        == #[trigger] upscaled_pixel(
                        low_res_buffer@,
                        low_width as int,
                        low_height as int,
                        high_width as int,
                        high_height as int,
                        x2,
                        y2,
                    ),
                forall|x2: int|
                    0 <= x2 < x ==> high@[y * high_width + x2] == #[trigger] upscaled_pixel(
                        low_res_buffer@,
                        low_width as int,
                        low_height as int,
                        high_width as int,
                        high_height as int,
                        x2,
                        y as int,
                    ),
            decreases high_width - x,
        {
            proof {
                assert(x * low_width <= (high_width - 1) * low_width) by (nonlinear_arith)
                    requires
                        x < high_width,
                        0 <= low_width,
                ;
            }
            let src_x = x * low_width / high_width;
            proof {
                assert(src_x < low_width) by (nonlinear_arith)
                    requires
                        src_x == x * low_width / (high_width as int),
                        0 <= x < high_width,
                        0 < low_width,
                        0 < high_width,
                ;
                lemma_grid_index_in_bounds(
                    src_x as int,
                    src_y as int,
                    low_width as int,
                    low_height as int,
                );
                assert(y * high_width + x < high_width * high_height) by (nonlinear_arith)
                    requires
                        0 <= x < high_width,
                        0 <= y < high_height,
                ;
            }
            let n_low = low_res_buffer.len();
            assert(row_base + src_x < n_low);
            let v = low_res_buffer[row_base + src_x];
            high.push(v);
            proof {
                assert forall|x2: int, y2: int|
                    #![trigger upscaled_pixel(low_res_buffer@, low_width as int, low_height as int, high_width as int, high_height as int, x2, y2)]
                    0 <= x2 < high_width && 0 <= y2 < y implies high@[y2 * high_width + x2]
                    == upscaled_pixel(
                    low_res_buffer@,
                    low_width as int,
                    low_height as int,
                    high_width as int,
                    high_height as int,
                    x2,
                    y2,
                ) by {
                    assert(y2 * high_width + x2 < y * high_width + x) by (nonlinear_arith)
                        requires
                            0 <= x2 < high_width,
                            0 <= y2 < y,
                            0 <= x,
                    ;
                }
            }
            x = x + 1;
        }
        y = y + 1;
        proof {
            assert(high@.len() == y * high_width) by (nonlinear_arith)
                requires
                    high@.len() == (y - 1) * high_width + high_width,
            ;
        }
    }
    proof {
        assert(high@.len() == high_width * high_height) by (nonlinear_arith)
            requires
                high@.len() == high_height * high_width,
        ;
    }
    high
}

} // verus!
