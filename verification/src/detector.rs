//! The two outside engines that the library calls: `rqrr` reads a square of
//! modules, `image` resamples a tile. The two functions that call them are
//! not proved: each states what the outside code is taken to do.
//!
//! Finding the squares in an image is not done here. The detector stops on
//! some images instead of answering, so no contract can stand for it: the
//! caller runs it and hands in what it found, as `GridCandidate`s.

use crate::frame::{lemma_cell_index, GrayFrame};
use vstd::prelude::*;

verus! {

/// A square of modules that may be a QR symbol, as found in some image.
#[derive(Debug, Clone)]
pub struct GridCandidate {
    /// Where the square lies in the image it was found in: top left, top
    /// right, bottom right, bottom left.
    pub corners: [(i32, i32); 4],
    /// The number of modules along one side.
    pub size: usize,
    /// The modules row by row; `true` is a dark module.
    pub modules: Vec<bool>,
}

/// What a `GridCandidate` holds, as mathematical values.
pub struct GridModel {
    pub corners: Seq<(i32, i32)>,
    pub size: usize,
    pub modules: Seq<bool>,
}

impl View for GridCandidate {
    type V = GridModel;

    open spec fn view(&self) -> GridModel {
        GridModel { corners: self.corners@, size: self.size, modules: self.modules@ }
    }
}

impl GridModel {
    /// The side is one that QR symbols come in, `4 v + 17` modules, and every
    /// module of the square is present.
    pub open spec fn wf(self) -> bool {
        &&& self.size >= 17
        &&& self.size % 4 == 1
        &&& self.modules.len() == self.size * self.size
        &&& self.corners.len() == 4
    }
}

impl GridCandidate {
    /// The candidate is a full square of a side that QR symbols come in.
    pub open spec fn wf(&self) -> bool {
        self@.wf()
    }

    /// Tells whether the candidate is well formed.
    pub fn is_well_formed(&self) -> (ok: bool)
        ensures
            ok == self.wf(),
    {
        if self.size < 17 || self.size % 4 != 1 {
            return false;
        }
        match self.size.checked_mul(self.size) {
            Some(cells) => self.modules.len() == cells,
            None => {
                assert(self.modules@.len() == self.modules.len());
                false
            },
        }
    }

    /// The module in column `x` of row `y`.
    pub fn module_at(&self, x: usize, y: usize) -> (dark: bool)
        requires
            self.wf(),
            x < self.size,
            y < self.size,
        ensures
            dark == self.modules@[y * self.size + x],
    {
        proof {
            lemma_cell_index(self.size as int, self.size as int, x as int, y as int);
            assert(self.modules@.len() == self.modules.len());
        }
        self.modules[y * self.size + x]
    }
}

/// What a QR symbol says: its version and its text.
#[derive(Debug, Clone)]
pub struct Decoded {
    pub version: usize,
    pub text: String,
}

/// What `rqrr` reads from a square of modules: the symbol's version and text,
/// or `None` where it cannot decode the square.
pub uninterp spec fn decode_of(size: usize, modules: Seq<bool>) -> Option<(usize, Seq<char>)>;

/// The models of a sequence of candidates.
pub open spec fn grid_models(grids: Seq<GridCandidate>) -> Seq<GridModel> {
    grids.map_values(|g: GridCandidate| g@)
}

/// The model of a decoder's answer.
pub open spec fn decoded_model(decoded: Option<Decoded>) -> Option<(usize, Seq<char>)> {
    match decoded {
        Some(d) => Some((d.version, d.text@)),
        None => None,
    }
}

/// Runs `rqrr::Grid::decode` on the square of modules.
///
/// Trusted: that the answer depends on the modules alone, and that a symbol
/// that decodes has a version from 1 to 40, the only ones that
/// `rqrr::Version::from_size` lets through.
#[verifier::external_body]
pub(crate) fn decode_grid(grid: &GridCandidate) -> (decoded: Option<Decoded>)
    requires
        grid.wf(),
    ensures
        decoded_model(decoded) == decode_of(grid.size, grid.modules@),
        decoded is Some ==> 1 <= decoded->Some_0.version <= 40,
{
    let modules = rqrr::SimpleGrid::from_func(grid.size, |x, y| grid.module_at(x, y));
    let read = rqrr::Grid::new(modules).decode();
    read.ok().map(|(meta, text)| Decoded { version: meta.version.0, text })
}

/// Whether a tile can be resampled to the given dimensions: the buffers that
/// `image` allocates on the way, the largest of them four `f32` for each
/// pixel, must not be larger than an allocation can be.
pub open spec fn resample_fits(new_width: u32, new_height: u32) -> bool {
    16 * new_width * new_height <= isize::MAX
}

/// `out` is what `image::imageops::resize` with the `Lanczos3` filter makes
/// of an image of the given dimensions and pixels at the new dimensions. A
/// relation, not a function: the filter is computed in floating point with a
/// sine, which need not give the same digits on every machine.
pub uninterp spec fn resampled(
    width: u32,
    height: u32,
    pixels: Seq<u8>,
    new_width: u32,
    new_height: u32,
    out: Seq<u8>,
) -> bool;

/// Runs `image::imageops::resize` with the `Lanczos3` filter.
///
/// Trusted: that the result has the dimensions asked for, and that it is the
/// resampling of the tile that was handed in.
#[verifier::external_body]
pub(crate) fn upscale(tile: &GrayFrame, new_width: u32, new_height: u32) -> (out: GrayFrame)
    requires
        tile.wf(),
        tile.width <= new_width,
        tile.height <= new_height,
        resample_fits(new_width, new_height),
    ensures
        out.wf(),
        out.width == new_width,
        out.height == new_height,
        resampled(tile.width, tile.height, tile.pixels@, new_width, new_height, out.pixels@),
{
    let raw = image::GrayImage::from_raw(tile.width, tile.height, tile.pixels.clone());
    let filter = image::imageops::FilterType::Lanczos3;
    let out = image::imageops::resize(&raw.unwrap(), new_width, new_height, filter);
    GrayFrame { width: out.width(), height: out.height(), pixels: out.into_raw() }
}

} // verus!
