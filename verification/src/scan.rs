//! Reading the grids found in one image: each is decoded in turn, and each
//! that decodes gives a result whose corners are mapped into the frame.

use crate::detector::{
    decode_grid, decode_of, decoded_model, grid_models, Decoded, GridCandidate, GridModel,
};
use vstd::prelude::*;

verus! {

/// A point of the frame, as the exact fraction `(x / den, y / den)` of a
/// pixel.
#[derive(Debug, Clone, Copy, PartialEq, Eq, Structural)]
pub struct FramePoint {
    pub x: i64,
    pub y: i64,
    pub den: i64,
}

/// One decoded QR symbol.
#[derive(Debug, Clone)]
pub struct QRCodeResult {
    /// The symbol's text.
    pub data: String,
    /// The symbol's version, from 1 to 40.
    pub version: i32,
    /// The symbol's four corners in the frame, in the decoder's order.
    pub bounds: Vec<FramePoint>,
}

/// What a `QRCodeResult` holds, as mathematical values.
pub struct QrModel {
    pub data: Seq<char>,
    pub version: int,
    pub bounds: Seq<FramePoint>,
}

impl View for QRCodeResult {
    type V = QrModel;

    open spec fn view(&self) -> QrModel {
        QrModel { data: self.data@, version: self.version as int, bounds: self.bounds@ }
    }
}

impl QrModel {
    /// The version is one that QR symbols have, and the symbol has four
    /// corners, each a fraction with a positive denominator.
    pub open spec fn wf(self) -> bool {
        &&& 1 <= self.version <= 40
        &&& self.bounds.len() == 4
        &&& forall|k: int| 0 <= k < self.bounds.len() ==> (#[trigger] self.bounds[k]).den >= 1
    }
}

/// The models of a list of results.
pub open spec fn models(results: Seq<QRCodeResult>) -> Seq<QrModel> {
    results.map_values(|r: QRCodeResult| r@)
}

/// Every result of the list is well formed.
pub open spec fn all_wf(results: Seq<QrModel>) -> bool {
    forall|i: int| 0 <= i < results.len() ==> (#[trigger] results[i]).wf()
}

/// The factor by which a scanned image is larger than the part of the frame
/// that it shows.
#[derive(Debug, Clone, Copy, PartialEq, Eq, Structural)]
pub enum Scale {
    /// 1: the frame itself.
    Whole,
    /// 1.5
    OneAndHalf,
    /// 2
    Double,
    /// 2.5
    TwoAndHalf,
}

impl Scale {
    /// The factor is `numerator() / denominator()`.
    pub open spec fn numerator(self) -> int {
        match self {
            Scale::Whole => 1,
            Scale::OneAndHalf => 3,
            Scale::Double => 2,
            Scale::TwoAndHalf => 5,
        }
    }

    pub open spec fn denominator(self) -> int {
        match self {
            Scale::Whole => 1,
            Scale::OneAndHalf => 2,
            Scale::Double => 1,
            Scale::TwoAndHalf => 2,
        }
    }

    /// A length of the frame as it is in the scanned image, rounded down.
    pub open spec fn enlarge(self, extent: u32) -> int {
        extent * self.numerator() / self.denominator()
    }

    /// Numerator and denominator of the factor.
    pub fn parts(self) -> (nd: (u32, u32))
        ensures
            nd.0 == self.numerator(),
            nd.1 == self.denominator(),
    {
        match self {
            Scale::Whole => (1, 1),
            Scale::OneAndHalf => (3, 2),
            Scale::Double => (2, 1),
            Scale::TwoAndHalf => (5, 2),
        }
    }
}

/// How a scanned image lies in the frame: enlarged by `scale`, with its top
/// left corner showing the frame's pixel `(offset_x, offset_y)`.
#[derive(Debug, Clone, Copy, PartialEq, Eq, Structural)]
pub struct Placement {
    pub scale: Scale,
    pub offset_x: u32,
    pub offset_y: u32,
}

impl Placement {
    /// The placement of the frame in itself.
    pub open spec fn whole() -> Placement {
        Placement { scale: Scale::Whole, offset_x: 0, offset_y: 0 }
    }
}

/// The frame coordinate of a length `t` measured in the scanned image:
/// `t / scale + offset`, as a numerator over the denominator
/// `scale.numerator()`.
pub open spec fn remap_axis(t: i32, scale: Scale, offset: u32) -> int {
    t * scale.denominator() + offset * scale.numerator()
}

/// The point of the frame that a point of the scanned image shows.
pub open spec fn remap(corner: (i32, i32), placement: Placement) -> FramePoint {
    FramePoint {
        x: remap_axis(corner.0, placement.scale, placement.offset_x) as i64,
        y: remap_axis(corner.1, placement.scale, placement.offset_y) as i64,
        den: placement.scale.numerator() as i64,
    }
}

/// A 32-bit length times a small factor stays far inside 64 bits.
proof fn lemma_product_bounds(t: int, factor: int)
    requires
        -0x8000_0000 <= t <= 0xffff_ffff,
        1 <= factor <= 5,
    ensures
        -0x5_0000_0000 <= t * factor <= 0x5_0000_0000,
{
    assert(-0x5_0000_0000 <= t * factor <= 0x5_0000_0000) by (nonlinear_arith)
        requires
            -0x8000_0000 <= t <= 0xffff_ffff,
            1 <= factor <= 5,
    ;
}

/// Maps a point of a scanned image back into the frame.
pub fn remap_point(corner: (i32, i32), placement: Placement) -> (p: FramePoint)
    ensures
        p == remap(corner, placement),
        p.den >= 1,
        p.x == remap_axis(corner.0, placement.scale, placement.offset_x),
        p.y == remap_axis(corner.1, placement.scale, placement.offset_y),
{
    let (n, d) = placement.scale.parts();
    let num: i64 = n as i64;
    let den: i64 = d as i64;
    proof {
        lemma_product_bounds(corner.0 as int, den as int);
        lemma_product_bounds(corner.1 as int, den as int);
        lemma_product_bounds(placement.offset_x as int, num as int);
        lemma_product_bounds(placement.offset_y as int, num as int);
    }
    FramePoint {
        x: corner.0 as i64 * den + placement.offset_x as i64 * num,
        y: corner.1 as i64 * den + placement.offset_y as i64 * num,
        den: num,
    }
}

/// Whether some result already carries the text.
pub open spec fn has_payload(results: Seq<QrModel>, text: Seq<char>) -> bool {
    exists|i: int| 0 <= i < results.len() && (#[trigger] results[i]).data == text
}

/// The result for a symbol read at `corners` of a scanned image.
pub open spec fn result_for(
    corners: Seq<(i32, i32)>,
    version: usize,
    text: Seq<char>,
    placement: Placement,
) -> QrModel {
    QrModel {
        data: text,
        version: version as int,
        bounds: corners.map_values(|c: (i32, i32)| remap(c, placement)),
    }
}

/// The results after one grid has been looked at: a grid that does not decode
/// adds nothing; with `dedup`, neither does a text that is already there; any
/// other grid adds its result at the end.
pub open spec fn recorded(
    results: Seq<QrModel>,
    corners: Seq<(i32, i32)>,
    decoded: Option<(usize, Seq<char>)>,
    placement: Placement,
    dedup: bool,
) -> Seq<QrModel> {
    match decoded {
        None => results,
        Some((version, text)) => if dedup && has_payload(results, text) {
            results
        } else {
            results.push(result_for(corners, version, text, placement))
        },
    }
}

/// What a grid says: what the decoder reads from it, and nothing where it
/// is not a full square of a side that QR symbols come in.
pub open spec fn reading(grid: GridModel) -> Option<(usize, Seq<char>)> {
    if grid.wf() {
        decode_of(grid.size, grid.modules)
    } else {
        None
    }
}

/// The results after a run of grids has been looked at, first to last.
pub open spec fn collected(
    results: Seq<QrModel>,
    grids: Seq<GridModel>,
    placement: Placement,
    dedup: bool,
) -> Seq<QrModel>
    decreases grids.len(),
{
    if grids.len() == 0 {
        results
    } else {
        let grid = grids.last();
        recorded(
            collected(results, grids.drop_last(), placement, dedup),
            grid.corners,
            reading(grid),
            placement,
            dedup,
        )
    }
}

/// Tells whether a result with this text is in the list.
pub fn contains_payload(results: &Vec<QRCodeResult>, text: &String) -> (found: bool)
    ensures
        found == has_payload(models(results@), text@),
{
    let mut i: usize = 0;
    while i < results.len()
        invariant
            i <= results@.len(),
            forall|k: int| 0 <= k < i ==> (#[trigger] models(results@)[k]).data != text@,
        decreases results@.len() - i,
    {
        if results[i].data == *text {
            assert(models(results@)[i as int].data == text@);
            return true;
        }
        i = i + 1;
    }
    false
}

/// Looks at one grid's reading: see `recorded`.
pub fn record_detection(
    results: &mut Vec<QRCodeResult>,
    corners: &[(i32, i32); 4],
    decoded: Option<Decoded>,
    placement: Placement,
    dedup: bool,
)
    requires
        decoded is Some ==> 1 <= decoded->Some_0.version <= 40,
    ensures
        models(final(results)@) == recorded(
            models(old(results)@),
            corners@,
            decoded_model(decoded),
            placement,
            dedup,
        ),
        all_wf(models(old(results)@)) ==> all_wf(models(final(results)@)),
{
    match decoded {
        None => {},
        Some(symbol) => {
            if dedup && contains_payload(results, &symbol.text) {
            } else {
                let mut bounds: Vec<FramePoint> = Vec::new();
                let mut i: usize = 0;
                while i < 4
                    invariant
                        i <= 4,
                        bounds@.len() == i,
                        forall|k: int| 0 <= k < i ==> bounds@[k] == remap(corners@[k], placement),
                        forall|k: int| 0 <= k < i ==> (#[trigger] bounds@[k]).den >= 1,
                    decreases 4 - i,
                {
                    bounds.push(remap_point(corners[i], placement));
                    i = i + 1;
                }
                let ghost before = models(results@);
                let ghost wanted = result_for(corners@, symbol.version, symbol.text@, placement);
                assert(bounds@ =~= wanted.bounds);
                let entry = QRCodeResult {
                    data: symbol.text,
                    version: symbol.version as i32,
                    bounds,
                };
                assert(entry@ == wanted);
                assert(entry@.wf());
                results.push(entry);
                assert(models(results@) =~= before.push(wanted));
            }
        },
    }
}

/// Reads one grid: see `reading`.
pub fn read_grid(grid: &GridCandidate) -> (decoded: Option<Decoded>)
    ensures
        decoded_model(decoded) == reading(grid@),
        decoded is Some ==> 1 <= decoded->Some_0.version <= 40,
{
    if grid.is_well_formed() {
        decode_grid(grid)
    } else {
        None
    }
}

/// Decodes each grid in turn and records what it says: see `collected`.
pub fn collect_grids(
    results: &mut Vec<QRCodeResult>,
    grids: &Vec<GridCandidate>,
    placement: Placement,
    dedup: bool,
)
    ensures
        models(final(results)@) == collected(
            models(old(results)@),
            grid_models(grids@),
            placement,
            dedup,
        ),
        all_wf(models(old(results)@)) ==> all_wf(models(final(results)@)),
{
    let ghost start = models(results@);
    let mut i: usize = 0;
    assert(grid_models(grids@).take(0) =~= Seq::<GridModel>::empty());
    while i < grids.len()
        invariant
            i <= grids@.len(),
            models(results@) == collected(
                start,
                grid_models(grids@).take(i as int),
                placement,
                dedup,
            ),
            all_wf(start) ==> all_wf(models(results@)),
        decreases grids@.len() - i,
    {
        let grid = &grids[i];
        let decoded = read_grid(grid);
        proof {
            let upto = grid_models(grids@).take(i as int + 1);
            assert(upto.drop_last() =~= grid_models(grids@).take(i as int));
            assert(upto.last() == grid@);
        }
        record_detection(results, &grid.corners, decoded, placement, dedup);
        i = i + 1;
    }
    assert(grid_models(grids@).take(i as int) =~= grid_models(grids@));
}

/// What the pass over the whole frame yields from the grids found in it:
/// every grid that decodes, with its corners as the detector gave them. A
/// text that several grids show stands as often as they show it.
pub open spec fn whole_results(grids: Seq<GridModel>) -> Seq<QrModel> {
    collected(Seq::empty(), grids, Placement::whole(), false)
}

/// The pass over the whole frame, on the grids found in it.
pub fn standard_pass(grids: &Vec<GridCandidate>) -> (results: Vec<QRCodeResult>)
    ensures
        models(results@) == whole_results(grid_models(grids@)),
        all_wf(models(results@)),
{
    let mut results: Vec<QRCodeResult> = Vec::new();
    assert(models(results@) =~= Seq::<QrModel>::empty());
    collect_grids(
        &mut results,
        grids,
        Placement { scale: Scale::Whole, offset_x: 0, offset_y: 0 },
        false,
    );
    results
}

} // verus!
