//! The search by regions, for symbols too small to be read in the whole
//! frame: four overlapping regions, each enlarged by three factors in turn
//! and scanned like a frame of its own.

use crate::detector::{grid_models, resample_fits, resampled, upscale, GridCandidate};
use crate::frame::GrayFrame;
use crate::scan::{
    all_wf, collect_grids, collected, models, Placement, QRCodeResult, Scale,
};
use vstd::prelude::*;

verus! {

/// A frame narrower or lower than this is not searched by regions.
pub const MIN_REGION_SEARCH_SIDE: u32 = 400;

/// The region search visits at most this many tiles: four regions, each at
/// three scales.
pub const TILE_COUNT: usize = 12;

/// When a region search ends.
#[derive(Debug, Clone, Copy, PartialEq, Eq, Structural)]
pub enum SearchPolicy {
    /// After the first tile in which a symbol decodes. Symbols that only
    /// later tiles would show are not found.
    StopAtFirstMatch,
    /// After all twelve tiles.
    Exhaustive,
}

/// A rectangle of the frame and the factor by which it is enlarged before it
/// is scanned.
#[derive(Debug, Clone, Copy, PartialEq, Eq, Structural)]
pub struct Tile {
    pub x: u32,
    pub y: u32,
    pub width: u32,
    pub height: u32,
    pub scale: Scale,
}

impl Tile {
    /// How the enlarged tile lies in the frame.
    pub open spec fn placement(self) -> Placement {
        Placement { scale: self.scale, offset_x: self.x, offset_y: self.y }
    }

    /// The width of the enlarged tile.
    pub open spec fn out_width(self) -> int {
        self.scale.enlarge(self.width)
    }

    /// The height of the enlarged tile.
    pub open spec fn out_height(self) -> int {
        self.scale.enlarge(self.height)
    }

    /// The enlarged tile can be made: its sides fit in 32 bits and the
    /// resampler's buffers in memory.
    pub open spec fn feasible(self) -> bool {
        &&& self.out_width() <= u32::MAX
        &&& self.out_height() <= u32::MAX
        &&& resample_fits(self.out_width() as u32, self.out_height() as u32)
    }

    /// The tile lies inside a frame of the given dimensions.
    pub open spec fn within(self, width: u32, height: u32) -> bool {
        self.x + self.width <= width && self.y + self.height <= height
    }
}

/// The distance between the origins of two neighbouring regions: a third of
/// the frame's side.
pub open spec fn region_step(side: u32) -> int {
    side as int / 3
}

/// The side of a region that starts at `origin`: two thirds of the frame's
/// side, and no more than the frame has left from there.
pub open spec fn region_extent(side: u32, origin: int) -> int {
    if 2 * side / 3 <= side - origin {
        2 * side / 3
    } else {
        side - origin
    }
}

/// The factors in the order in which a region is tried at them.
pub open spec fn scale_at(turn: int) -> Scale {
    if turn == 0 {
        Scale::OneAndHalf
    } else if turn == 1 {
        Scale::Double
    } else {
        Scale::TwoAndHalf
    }
}

/// The tile visited at `index`: the regions row by row, the top row first and
/// in a row the left region first, and each region at 1.5, at 2 and at 2.5.
pub open spec fn tile_at(width: u32, height: u32, index: int) -> Tile {
    let region = index / 3;
    let x = (region % 2) * region_step(width);
    let y = (region / 2) * region_step(height);
    Tile {
        x: x as u32,
        y: y as u32,
        width: region_extent(width, x) as u32,
        height: region_extent(height, y) as u32,
        scale: scale_at(index % 3),
    }
}

/// Origin and extent of the region in column or row `cell` of a side.
fn region_span(side: u32, cell: usize) -> (span: (u32, u32))
    requires
        cell < 2,
    ensures
        span.0 == cell * region_step(side),
        span.1 == region_extent(side, span.0 as int),
        span.0 + span.1 <= side,
{
    let step: u32 = side / 3;
    let origin: u32 = if cell == 0 {
        0
    } else {
        step
    };
    let two_thirds: u32 = (2 * (side as u64) / 3) as u32;
    let left: u32 = side - origin;
    let extent: u32 = if two_thirds <= left {
        two_thirds
    } else {
        left
    };
    (origin, extent)
}

/// Computes the tile visited at `index`.
pub fn tile_plan(width: u32, height: u32, index: usize) -> (tile: Tile)
    requires
        index < TILE_COUNT,
    ensures
        tile == tile_at(width, height, index as int),
        tile.within(width, height),
{
    let region: usize = index / 3;
    let turn: usize = index % 3;
    let (x, w) = region_span(width, region % 2);
    let (y, h) = region_span(height, region / 2);
    let scale = if turn == 0 {
        Scale::OneAndHalf
    } else if turn == 1 {
        Scale::Double
    } else {
        Scale::TwoAndHalf
    };
    Tile { x, y, width: w, height: h, scale }
}

/// A side of the frame as it is after enlarging, if it fits in 32 bits.
pub fn enlarged_side(extent: u32, scale: Scale) -> (side: Option<u32>)
    ensures
        side is Some <==> scale.enlarge(extent) <= u32::MAX,
        side is Some ==> side->Some_0 == scale.enlarge(extent),
        side is Some ==> side->Some_0 >= extent,
{
    let (n, d) = scale.parts();
    assert(extent * n <= 0xffff_ffff * 5) by (nonlinear_arith)
        requires
            0 <= extent <= 0xffff_ffff,
            1 <= n <= 5,
    ;
    let scaled: u64 = extent as u64 * n as u64 / d as u64;
    assert(scaled >= extent) by {
        match scale {
            Scale::Whole => assert(extent * 1 / 1 >= extent),
            Scale::OneAndHalf => assert(extent * 3 / 2 >= extent),
            Scale::Double => assert(extent * 2 / 1 >= extent),
            Scale::TwoAndHalf => assert(extent * 5 / 2 >= extent),
        }
    }
    if scaled <= u32::MAX as u64 {
        Some(scaled as u32)
    } else {
        None
    }
}

/// Tells whether the resampler's buffers for an image of this size fit in
/// memory.
pub fn can_resample(width: u32, height: u32) -> (fits: bool)
    ensures
        fits == resample_fits(width, height),
{
    assert(0 <= width * height <= 0xffff_ffff * 0xffff_ffff) by (nonlinear_arith)
        requires
            0 <= width <= 0xffff_ffff,
            0 <= height <= 0xffff_ffff,
    ;
    assert(16 * width * height == 16 * (width * height)) by (nonlinear_arith);
    16 * ((width as u128) * (height as u128)) <= isize::MAX as u128
}

/// Tells whether the tile can be enlarged.
pub fn tile_is_feasible(tile: Tile) -> (ok: bool)
    ensures
        ok == tile.feasible(),
{
    match (enlarged_side(tile.width, tile.scale), enlarged_side(tile.height, tile.scale)) {
        (Some(w), Some(h)) => can_resample(w, h),
        _ => false,
    }
}

/// Cuts the tile out of the frame and enlarges it, where that can be done.
pub fn enlarge_tile(frame: &GrayFrame, tile: Tile) -> (enlarged: Option<GrayFrame>)
    requires
        frame.wf(),
        tile.within(frame.width, frame.height),
    ensures
        enlarged is Some <==> tile.feasible(),
        enlarged is Some ==> enlarged->Some_0.wf() && enlarged->Some_0.width == tile.out_width()
            && enlarged->Some_0.height == tile.out_height(),
        enlarged is Some ==> resampled(
            tile.width,
            tile.height,
            frame.region(tile.x, tile.y, tile.width, tile.height),
            tile.out_width() as u32,
            tile.out_height() as u32,
            enlarged->Some_0.pixels@,
        ),
{
    let out_width = enlarged_side(tile.width, tile.scale);
    let out_height = enlarged_side(tile.height, tile.scale);
    match (out_width, out_height) {
        (Some(w), Some(h)) => {
            if can_resample(w, h) {
                let cut = frame.crop(tile.x, tile.y, tile.width, tile.height);
                Some(upscale(&cut, w, h))
            } else {
                None
            }
        },
        _ => None,
    }
}

/// A frame with a side under `MIN_REGION_SEARCH_SIDE` is not searched by
/// regions.
pub open spec fn too_small(width: u32, height: u32) -> bool {
    width < MIN_REGION_SEARCH_SIDE || height < MIN_REGION_SEARCH_SIDE
}

/// The state of a region search: which tile comes next and what has been
/// found.
#[derive(Debug)]
pub struct RegionScan {
    pub width: u32,
    pub height: u32,
    pub policy: SearchPolicy,
    /// The index of the next tile to visit.
    pub next: usize,
    pub results: Vec<QRCodeResult>,
}

impl RegionScan {
    /// The tile to visit next, or `None` where the search is over: the frame
    /// is too small, every tile was visited, or something has been found and
    /// the search stops at the first match.
    pub open spec fn pending_tile(&self) -> Option<Tile> {
        if too_small(self.width, self.height) || self.next >= TILE_COUNT || (self.policy
            == SearchPolicy::StopAtFirstMatch && self.results@.len() > 0) {
            None
        } else {
            Some(tile_at(self.width, self.height, self.next as int))
        }
    }

    /// A search that has visited nothing yet.
    pub fn new(width: u32, height: u32, policy: SearchPolicy) -> (scan: RegionScan)
        ensures
            scan.width == width,
            scan.height == height,
            scan.policy == policy,
            scan.next == 0,
            scan.results@.len() == 0,
    {
        RegionScan { width, height, policy, next: 0, results: Vec::new() }
    }

    /// The tile to visit next, if the search goes on.
    pub fn pending(&self) -> (tile: Option<Tile>)
        ensures
            tile == self.pending_tile(),
            tile is Some ==> tile->Some_0.within(self.width, self.height),
    {
        let found = match self.policy {
            SearchPolicy::StopAtFirstMatch => self.results.len() > 0,
            SearchPolicy::Exhaustive => false,
        };
        if self.width < MIN_REGION_SEARCH_SIDE || self.height < MIN_REGION_SEARCH_SIDE || self.next
            >= TILE_COUNT || found {
            None
        } else {
            Some(tile_plan(self.width, self.height, self.next))
        }
    }

    /// Takes in the grids found in the enlarged image of the pending tile:
    /// each that decodes to a text not yet recorded adds a result.
    pub fn absorb(&mut self, grids: &Vec<GridCandidate>)
        requires
            old(self).pending_tile() is Some,
        ensures
            final(self).width == old(self).width,
            final(self).height == old(self).height,
            final(self).policy == old(self).policy,
            final(self).next == old(self).next + 1,
            models(final(self).results@) == collected(
                models(old(self).results@),
                grid_models(grids@),
                old(self).pending_tile()->Some_0.placement(),
                true,
            ),
            all_wf(models(old(self).results@)) ==> all_wf(models(final(self).results@)),
    {
        let tile = tile_plan(self.width, self.height, self.next);
        collect_grids(
            &mut self.results,
            grids,
            Placement { scale: tile.scale, offset_x: tile.x, offset_y: tile.y },
            true,
        );
        self.next = self.next + 1;
    }

    /// Passes over the pending tile.
    pub fn skip(&mut self)
        requires
            old(self).pending_tile() is Some,
        ensures
            final(self).width == old(self).width,
            final(self).height == old(self).height,
            final(self).policy == old(self).policy,
            final(self).next == old(self).next + 1,
            final(self).results == old(self).results,
    {
        self.next = self.next + 1;
    }
}

} // verus!
