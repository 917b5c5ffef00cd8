//! Grayscale frames: the pixel grid that both detection passes work on.

use vstd::prelude::*;

verus! {

/// Why a frame could not be taken from a caller's buffer.
#[derive(Debug, Clone, Copy, PartialEq, Eq, Structural)]
pub enum FrameError {
    /// The buffer does not hold four bytes for each of `width * height` pixels.
    InvalidBufferSize { expected: u128, actual: usize },
}

/// One luma byte per pixel, row by row, without padding.
#[derive(Debug, Clone)]
pub struct GrayFrame {
    pub width: u32,
    pub height: u32,
    pub pixels: Vec<u8>,
}

/// The luma of one RGB pixel: `0.299 R + 0.587 G + 0.114 B`, rounded to the
/// nearest integer (a half rounds up).
pub open spec fn luma(r: u8, g: u8, b: u8) -> int {
    (299 * r + 587 * g + 114 * b + 500) / 1000
}

/// The number of bytes an RGBA buffer of the given dimensions holds.
pub open spec fn rgba_len(width: u32, height: u32) -> int {
    width * height * 4
}

/// The luma of every pixel of an RGBA buffer, in the buffer's order.
pub open spec fn luma_plane(rgba: Seq<u8>, width: u32, height: u32) -> Seq<u8> {
    Seq::new(
        (width * height) as nat,
        |i: int| luma(rgba[4 * i], rgba[4 * i + 1], rgba[4 * i + 2]) as u8,
    )
}

/// The rectangle that is `width` wide and `height` high and has its top left
/// corner at `(x, y)`, cut out of rows of `stride` pixels, row by row.
pub open spec fn region_of(
    pixels: Seq<u8>,
    stride: u32,
    x: u32,
    y: u32,
    width: u32,
    height: u32,
) -> Seq<u8> {
    Seq::new(
        (width * height) as nat,
        |i: int| pixels[(y + i / (width as int)) * stride + x + i % (width as int)],
    )
}

impl GrayFrame {
    /// The pixel buffer holds exactly `width * height` bytes.
    pub open spec fn wf(&self) -> bool {
        self.pixels@.len() == self.width * self.height
    }

    /// The pixel in column `x` of row `y`.
    pub open spec fn at(&self, x: int, y: int) -> u8 {
        self.pixels@[y * self.width + x]
    }

    /// The part of the frame that is `width` wide and `height` high and has its
    /// top left corner at `(x, y)`.
    pub open spec fn region(&self, x: u32, y: u32, width: u32, height: u32) -> Seq<u8> {
        region_of(self.pixels@, self.width, x, y, width, height)
    }

    /// Copies a rectangle out of the frame.
    pub fn crop(&self, x: u32, y: u32, width: u32, height: u32) -> (tile: GrayFrame)
        requires
            self.wf(),
            x + width <= self.width,
            y + height <= self.height,
        ensures
            tile.wf(),
            tile.width == width,
            tile.height == height,
            tile.pixels@ == self.region(x, y, width, height),
    {
        let total: usize = self.pixels.len();
        let mut pixels: Vec<u8> = Vec::new();
        let mut row: u32 = 0;
        while row < height
            invariant
                self.wf(),
                total == self.pixels@.len(),
                x + width <= self.width,
                y + height <= self.height,
                row <= height,
                pixels@.len() == row * width,
                forall|i: int|
                    0 <= i < pixels@.len() ==> pixels@[i] == self.at(
                        x + i % (width as int),
                        y + i / (width as int),
                    ),
            decreases height - row,
        {
            let mut col: u32 = 0;
            while col < width
                invariant
                    self.wf(),
                    total == self.pixels@.len(),
                    x + width <= self.width,
                    y + height <= self.height,
                    row < height,
                    col <= width,
                    pixels@.len() == row * width + col,
                    forall|i: int|
                        0 <= i < pixels@.len() ==> pixels@[i] == self.at(
                            x + i % (width as int),
                            y + i / (width as int),
                        ),
                decreases width - col,
            {
                proof {
                    lemma_cell_index(self.width as int, self.height as int, x + col, y + row);
                    lemma_row_major(width, row, col);
                }
                let start: usize = (y + row) as usize * self.width as usize;
                let from: usize = start + (x + col) as usize;
                pixels.push(self.pixels[from]);
                col = col + 1;
            }
            row = row + 1;
            assert(row * width == (row - 1) * width + width) by (nonlinear_arith);
        }
        assert(height * width == width * height) by (nonlinear_arith);
        assert(pixels@ =~= self.region(x, y, width, height));
        GrayFrame { width, height, pixels }
    }

    /// A copy of the frame.
    pub fn copy(&self) -> (twin: GrayFrame)
        requires
            self.wf(),
        ensures
            twin.wf(),
            twin.width == self.width,
            twin.height == self.height,
            twin.pixels@ == self.pixels@,
    {
        proof {
            lemma_whole_region(self.pixels@, self.width, self.height);
        }
        self.crop(0, 0, self.width, self.height)
    }
}

/// The rectangle that covers all rows is the rows themselves.
pub proof fn lemma_whole_region(pixels: Seq<u8>, width: u32, height: u32)
    requires
        pixels.len() == width * height,
    ensures
        region_of(pixels, width, 0, 0, width, height) =~= pixels,
{
    let cut = region_of(pixels, width, 0, 0, width, height);
    assert forall|i: int| 0 <= i < cut.len() implies #[trigger] cut[i] == pixels[i] by {
        assert(width > 0) by (nonlinear_arith)
            requires
                0 <= i < width * height,
                0 <= height,
        ;
        vstd::arithmetic::div_mod::lemma_fundamental_div_mod(i, width as int);
        assert((i / (width as int)) * width == width * (i / (width as int))) by (nonlinear_arith);
    }
}

/// A cell inside a grid has a row-major index inside the grid's buffer.
pub proof fn lemma_cell_index(width: int, height: int, x: int, y: int)
    requires
        0 <= x < width,
        0 <= y < height,
    ensures
        0 <= y * width <= y * width + x < width * height,
{
    assert(y * width + x < width * height) by (nonlinear_arith)
        requires
            0 <= x < width,
            0 <= y < height,
    ;
    assert(0 <= y * width) by (nonlinear_arith)
        requires
            0 <= y,
            0 <= width,
    ;
}

/// Row-major index `row * width + col` splits back into `col` and `row`.
pub proof fn lemma_row_major(width: u32, row: u32, col: u32)
    requires
        col < width,
    ensures
        (row * width + col) % (width as int) == col,
        (row * width + col) / (width as int) == row,
{
    vstd::arithmetic::div_mod::lemma_fundamental_div_mod_converse(
        row * width + col,
        width as int,
        row as int,
        col as int,
    );
}

/// Converts an RGBA buffer to grayscale, or reports that the buffer does not
/// have the length that its dimensions call for.
pub fn rgba_to_gray(rgba: &[u8], width: u32, height: u32) -> (r: Result<GrayFrame, FrameError>)
    ensures
        rgba@.len() != rgba_len(width, height) ==> r == Err::<GrayFrame, FrameError>(
            FrameError::InvalidBufferSize {
                expected: rgba_len(width, height) as u128,
                actual: rgba.len(),
            },
        ),
        rgba@.len() == rgba_len(width, height) ==> r is Ok && r->Ok_0.wf() && r->Ok_0.width == width
            && r->Ok_0.height == height && r->Ok_0.pixels@ == luma_plane(rgba@, width, height),
{
    assert(0 <= width * height <= 0xffff_ffff * 0xffff_ffff) by (nonlinear_arith)
        requires
            0 <= width <= 0xffff_ffff,
            0 <= height <= 0xffff_ffff,
    ;
    let expected: u128 = width as u128 * height as u128 * 4;
    if rgba.len() as u128 != expected {
        return Err(FrameError::InvalidBufferSize { expected, actual: rgba.len() });
    }
    let total: usize = rgba.len();
    let count: usize = total / 4;
    let mut pixels: Vec<u8> = Vec::new();
    let mut i: usize = 0;
    while i < count
        invariant
            total == 4 * count,
            rgba@.len() == total,
            count == width * height,
            i <= count,
            pixels@.len() == i,
            forall|k: int|
                0 <= k < i ==> pixels@[k] == luma(rgba@[4 * k], rgba@[4 * k + 1], rgba@[4 * k + 2]),
        decreases count - i,
    {
        let r: u32 = rgba[4 * i] as u32;
        let g: u32 = rgba[4 * i + 1] as u32;
        let b: u32 = rgba[4 * i + 2] as u32;
        let y: u32 = (299 * r + 587 * g + 114 * b + 500) / 1000;
        pixels.push(y as u8);
        i = i + 1;
    }
    assert(pixels@ =~= luma_plane(rgba@, width, height));
    Ok(GrayFrame { width, height, pixels })
}

} // verus!
