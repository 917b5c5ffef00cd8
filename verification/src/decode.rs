//! Detection from end to end, as a sequence of steps. The library decides
//! which image is to be scanned next and what the grids found in it add to
//! the results; the caller runs the grid detector on each image and hands
//! back what it found.

use crate::detector::{grid_models, resampled, GridCandidate, GridModel};
use crate::frame::{luma_plane, region_of, rgba_len, rgba_to_gray, FrameError, GrayFrame};
use crate::regions::{
    enlarge_tile, tile_at, tile_is_feasible, too_small, RegionScan, SearchPolicy, Tile,
    TILE_COUNT,
};
use crate::scan::{
    all_wf, collected, models, standard_pass, whole_results, QRCodeResult, QrModel,
};
use vstd::prelude::*;

verus! {

/// Where a detection stands.
#[derive(Debug, Clone, Copy, PartialEq, Eq, Structural)]
pub enum Stage {
    /// The whole frame is to be scanned.
    Whole,
    /// The tile at `next` is to be scanned, enlarged.
    Regions,
    /// Nothing is left to scan.
    Done,
}

/// A detection under way, as mathematical values.
pub struct DetectionModel {
    pub width: u32,
    pub height: u32,
    pub pixels: Seq<u8>,
    pub policy: SearchPolicy,
    pub stage: Stage,
    /// The index of the tile that comes next in the region search.
    pub next: int,
    pub results: Seq<QrModel>,
}

impl DetectionModel {
    /// The tile that the region search visits next, or `None` where the
    /// search is over: the frame is too small, every tile was visited, or
    /// something has been found and the search stops at the first match.
    pub open spec fn pending_tile(self) -> Option<Tile> {
        if too_small(self.width, self.height) || self.next >= TILE_COUNT || (self.policy
            == SearchPolicy::StopAtFirstMatch && self.results.len() > 0) {
            None
        } else {
            Some(tile_at(self.width, self.height, self.next))
        }
    }

    /// The frame has its pixels; before the whole frame is scanned nothing is
    /// found and no tile visited; while the region search goes on, the tile
    /// that comes next is one that can be enlarged.
    pub open spec fn wf(self) -> bool {
        &&& self.pixels.len() == self.width * self.height
        &&& 0 <= self.next <= TILE_COUNT
        &&& self.stage == Stage::Whole ==> self.next == 0 && self.results.len() == 0
        &&& self.stage == Stage::Regions ==> self.pending_tile() is Some
            && self.pending_tile()->Some_0.feasible()
    }

    /// The same detection at another stage.
    pub open spec fn at_stage(self, stage: Stage) -> DetectionModel {
        DetectionModel {
            width: self.width,
            height: self.height,
            pixels: self.pixels,
            policy: self.policy,
            stage,
            next: self.next,
            results: self.results,
        }
    }

    /// The same detection with one more tile behind it.
    pub open spec fn past_tile(self, results: Seq<QrModel>) -> DetectionModel {
        DetectionModel {
            width: self.width,
            height: self.height,
            pixels: self.pixels,
            policy: self.policy,
            stage: self.stage,
            next: self.next + 1,
            results,
        }
    }

    /// A region search brought to its next stop: tiles that cannot be
    /// enlarged are passed over, and the detection is done where the search
    /// is over.
    pub open spec fn settled(self) -> DetectionModel
        decreases TILE_COUNT - self.next,
    {
        if self.stage != Stage::Regions {
            self
        } else if self.pending_tile() is None {
            self.at_stage(Stage::Done)
        } else if self.pending_tile()->Some_0.feasible() {
            self
        } else {
            self.past_tile(self.results).settled()
        }
    }

    /// The detection after the grids found in the whole frame were handed
    /// in: what they show is the result, if they show anything; if not, the
    /// region search begins.
    pub open spec fn after_whole(self, grids: Seq<GridModel>) -> DetectionModel {
        let found = whole_results(grids);
        if found.len() > 0 {
            DetectionModel {
                width: self.width,
                height: self.height,
                pixels: self.pixels,
                policy: self.policy,
                stage: Stage::Done,
                next: self.next,
                results: found,
            }
        } else {
            self.at_stage(Stage::Regions).settled()
        }
    }

    /// What the grids found in the pending tile's enlarged image add: each
    /// that decodes to a text not among the results yet adds one, with its
    /// corners mapped back into the frame.
    pub open spec fn with_tile(self, grids: Seq<GridModel>) -> Seq<QrModel> {
        collected(
            self.results,
            grids,
            tile_at(self.width, self.height, self.next).placement(),
            true,
        )
    }

    /// The detection after the grids found in the pending tile's enlarged
    /// image were handed in.
    pub open spec fn after_tile(self, grids: Seq<GridModel>) -> DetectionModel {
        self.past_tile(self.with_tile(grids)).settled()
    }

    /// The detection after the grids found in the image that was asked for
    /// were handed in. A detection that is done takes nothing in.
    pub open spec fn step(self, grids: Seq<GridModel>) -> DetectionModel {
        match self.stage {
            Stage::Whole => self.after_whole(grids),
            Stage::Regions => self.after_tile(grids),
            Stage::Done => self,
        }
    }

    /// `image` is the image to scan next: the frame itself first, then the
    /// pending tile cut out of the frame and enlarged.
    pub open spec fn asks_for(self, image: GrayFrame) -> bool {
        match self.stage {
            Stage::Whole => image.width == self.width && image.height == self.height
                && image.pixels@ == self.pixels,
            Stage::Regions => {
                let tile = tile_at(self.width, self.height, self.next);
                &&& image.width == tile.out_width()
                &&& image.height == tile.out_height()
                &&& resampled(
                    tile.width,
                    tile.height,
                    region_of(self.pixels, self.width, tile.x, tile.y, tile.width, tile.height),
                    image.width,
                    image.height,
                    image.pixels@,
                )
            },
            Stage::Done => false,
        }
    }
}

/// A detection under way: the frame, the stage, and the state of the region
/// search with what has been found.
pub struct Detection {
    frame: GrayFrame,
    stage: Stage,
    scan: RegionScan,
}

/// The model of a detection made of the given parts.
pub closed spec fn model_of(frame: GrayFrame, stage: Stage, scan: RegionScan) -> DetectionModel {
    DetectionModel {
        width: frame.width,
        height: frame.height,
        pixels: frame.pixels@,
        policy: scan.policy,
        stage,
        next: scan.next as int,
        results: models(scan.results@),
    }
}

impl View for Detection {
    type V = DetectionModel;

    closed spec fn view(&self) -> DetectionModel {
        model_of(self.frame, self.stage, self.scan)
    }
}

/// Brings a region search to its next stop: see `settled`.
fn settle(frame: &GrayFrame, scan: RegionScan) -> (out: (RegionScan, Stage))
    requires
        frame.wf(),
        scan.width == frame.width,
        scan.height == frame.height,
        scan.next <= TILE_COUNT,
        all_wf(models(scan.results@)),
    ensures
        model_of(*frame, out.1, out.0) == model_of(*frame, Stage::Regions, scan).settled(),
        model_of(*frame, out.1, out.0).wf(),
        all_wf(models(out.0.results@)),
        out.0.width == frame.width,
        out.0.height == frame.height,
{
    let ghost start = model_of(*frame, Stage::Regions, scan);
    let mut scan = scan;
    let mut pending = scan.pending();
    while pending.is_some() && !tile_is_feasible(pending.unwrap())
        invariant
            frame.wf(),
            scan.width == frame.width,
            scan.height == frame.height,
            scan.next <= TILE_COUNT,
            all_wf(models(scan.results@)),
            pending == scan.pending_tile(),
            model_of(*frame, Stage::Regions, scan).settled() == start.settled(),
        decreases TILE_COUNT - scan.next,
    {
        scan.skip();
        pending = scan.pending();
    }
    let stage = if pending.is_none() {
        Stage::Done
    } else {
        Stage::Regions
    };
    (scan, stage)
}

impl Detection {
    #[verifier::type_invariant]
    spec fn inv(&self) -> bool {
        &&& self@.wf()
        &&& all_wf(self@.results)
        &&& self.scan.width == self.frame.width
        &&& self.scan.height == self.frame.height
    }

    /// Begins a detection on an RGBA frame. A buffer whose length is not
    /// `width * height * 4` is rejected.
    pub fn begin(image_data: &[u8], width: u32, height: u32, policy: SearchPolicy) -> (r: Result<
        Detection,
        FrameError,
    >)
        ensures
            image_data@.len() != rgba_len(width, height) ==> r is Err && r->Err_0 == (
            FrameError::InvalidBufferSize {
                expected: rgba_len(width, height) as u128,
                actual: image_data.len(),
            }),
            image_data@.len() == rgba_len(width, height) ==> r is Ok && r->Ok_0@ == (
            DetectionModel {
                width,
                height,
                pixels: luma_plane(image_data@, width, height),
                policy,
                stage: Stage::Whole,
                next: 0,
                results: Seq::empty(),
            }),
    {
        match rgba_to_gray(image_data, width, height) {
            Err(e) => Err(e),
            Ok(frame) => Ok(Detection::on_frame(frame, policy)),
        }
    }

    /// Begins a detection on a grayscale frame.
    pub fn on_frame(frame: GrayFrame, policy: SearchPolicy) -> (detection: Detection)
        requires
            frame.wf(),
        ensures
            detection@ == (DetectionModel {
                width: frame.width,
                height: frame.height,
                pixels: frame.pixels@,
                policy,
                stage: Stage::Whole,
                next: 0,
                results: Seq::empty(),
            }),
    {
        let scan = RegionScan::new(frame.width, frame.height, policy);
        assert(models(scan.results@) =~= Seq::<QrModel>::empty());
        Detection { frame, stage: Stage::Whole, scan }
    }

    /// Tells whether nothing is left to scan.
    pub fn is_done(&self) -> (done: bool)
        ensures
            done == (self@.stage == Stage::Done),
    {
        match self.stage {
            Stage::Done => true,
            _ => false,
        }
    }

    /// The image to scan next, or `None` when the detection is done.
    pub fn next_image(&self) -> (image: Option<GrayFrame>)
        ensures
            self@.wf(),
            image is Some <==> self@.stage != Stage::Done,
            image is Some ==> image->Some_0.wf() && self@.asks_for(image->Some_0),
    {
        proof {
            use_type_invariant(self);
        }
        match self.stage {
            Stage::Whole => Some(self.frame.copy()),
            Stage::Regions => {
                let tile = self.scan.pending();
                enlarge_tile(&self.frame, tile.unwrap())
            },
            Stage::Done => None,
        }
    }

    /// Takes in the grids that the detector found in the image that
    /// `next_image` gave: see `step`.
    pub fn absorb(self, grids: &Vec<GridCandidate>) -> (after: Detection)
        ensures
            self@.wf(),
            after@.wf(),
            after@ == self@.step(grid_models(grids@)),
    {
        proof {
            use_type_invariant(&self);
        }
        let Detection { frame, stage, scan } = self;
        match stage {
            Stage::Whole => {
                let found = standard_pass(grids);
                if found.len() > 0 {
                    let scan = RegionScan {
                        width: scan.width,
                        height: scan.height,
                        policy: scan.policy,
                        next: scan.next,
                        results: found,
                    };
                    Detection { frame, stage: Stage::Done, scan }
                } else {
                    let (scan, stage) = settle(&frame, scan);
                    Detection { frame, stage, scan }
                }
            },
            Stage::Regions => {
                let mut scan = scan;
                scan.absorb(grids);
                let (scan, stage) = settle(&frame, scan);
                Detection { frame, stage, scan }
            },
            Stage::Done => Detection { frame, stage, scan },
        }
    }

    /// What has been found so far.
    pub fn results(&self) -> (found: &Vec<QRCodeResult>)
        ensures
            models(found@) == self@.results,
    {
        &self.scan.results
    }

    /// Ends the detection and hands out what was found.
    pub fn finish(self) -> (found: Vec<QRCodeResult>)
        ensures
            models(found@) == self@.results,
            all_wf(models(found@)),
    {
        proof {
            use_type_invariant(&self);
        }
        self.scan.results
    }
}

} // verus!
