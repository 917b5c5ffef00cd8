//! What holds of the scan and of the parser on every input, proved from
//! their definitions.

use crate::detector::GridModel;
use crate::mrz::{
    birth_date_of, cleaned, field, name_of, padded, parse_lines, parse_text, td1_model,
    td2_model, td3_model, usable, MrzError, MrzModel, CONFIDENCE_PERCENT, FILLER,
};
use crate::decode::{DetectionModel, Stage};
use crate::regions::{tile_at, SearchPolicy};
use crate::scan::{
    collected, has_payload, reading, recorded, whole_results, Placement, QrModel,
};
use crate::text::{lines_of, trim_end_char, without};
use vstd::prelude::*;

verus! {

/// No two results carry the same text.
pub open spec fn distinct_payloads(results: Seq<QrModel>) -> bool {
    forall|i: int, j: int|
        0 <= i < j < results.len() ==> (#[trigger] results[i]).data != (#[trigger] results[j]).data
}

/// Looking at one more grid leaves what was recorded before in place.
pub proof fn lemma_recorded_extends(
    results: Seq<QrModel>,
    corners: Seq<(i32, i32)>,
    decoded: Option<(usize, Seq<char>)>,
    placement: Placement,
    dedup: bool,
)
    ensures
        results.len() <= recorded(results, corners, decoded, placement, dedup).len()
            <= results.len() + 1,
        forall|i: int|
            0 <= i < results.len() ==> recorded(results, corners, decoded, placement, dedup)[i]
                == results[i],
{
}

/// A run of grids leaves what was recorded before in place, and adds at most
/// one result for each grid.
pub proof fn lemma_collected_extends(
    results: Seq<QrModel>,
    grids: Seq<GridModel>,
    placement: Placement,
    dedup: bool,
)
    ensures
        results.len() <= collected(results, grids, placement, dedup).len() <= results.len()
            + grids.len(),
        forall|i: int|
            0 <= i < results.len() ==> collected(results, grids, placement, dedup)[i] == results[i],
    decreases grids.len(),
{
    if grids.len() > 0 {
        let grid = grids.last();
        let before = collected(results, grids.drop_last(), placement, dedup);
        lemma_collected_extends(results, grids.drop_last(), placement, dedup);
        lemma_recorded_extends(
            before,
            grid.corners,
            reading(grid),
            placement,
            dedup,
        );
    }
}

/// With deduplication, a run of grids never records a text twice: where no
/// text stood twice before, none does after.
pub proof fn lemma_collected_once(results: Seq<QrModel>, grids: Seq<GridModel>, placement: Placement)
    requires
        distinct_payloads(results),
    ensures
        distinct_payloads(collected(results, grids, placement, true)),
    decreases grids.len(),
{
    if grids.len() > 0 {
        lemma_collected_once(results, grids.drop_last(), placement);
    }
}

/// Every grid that decodes has its text among the results, with or without
/// deduplication.
pub proof fn lemma_decoded_text_is_recorded(
    results: Seq<QrModel>,
    grids: Seq<GridModel>,
    placement: Placement,
    dedup: bool,
    i: int,
)
    requires
        0 <= i < grids.len(),
        reading(grids[i]) is Some,
    ensures
        has_payload(
            collected(results, grids, placement, dedup),
            reading(grids[i])->Some_0.1,
        ),
    decreases grids.len(),
{
    let text = reading(grids[i])->Some_0.1;
    let grid = grids.last();
    let before = collected(results, grids.drop_last(), placement, dedup);
    let after = collected(results, grids, placement, dedup);
    lemma_recorded_extends(
        before,
        grid.corners,
        reading(grid),
        placement,
        dedup,
    );
    if i == grids.len() - 1 {
        if dedup && has_payload(before, text) {
        } else {
            assert(after[before.len() as int].data == text);
        }
    } else {
        lemma_decoded_text_is_recorded(results, grids.drop_last(), placement, dedup, i);
        let k = choose|k: int| 0 <= k < before.len() && (#[trigger] before[k]).data == text;
        assert(after[k].data == text);
    }
}

/// None of the grids decodes.
pub open spec fn shows_nothing(grids: Seq<GridModel>) -> bool {
    forall|i: int| 0 <= i < grids.len() ==> reading(#[trigger] grids[i]) is None
}

/// Grids of which none decodes add nothing.
pub proof fn lemma_nothing_collected(
    results: Seq<QrModel>,
    grids: Seq<GridModel>,
    placement: Placement,
    dedup: bool,
)
    requires
        shows_nothing(grids),
    ensures
        collected(results, grids, placement, dedup) == results,
    decreases grids.len(),
{
    if grids.len() > 0 {
        assert(reading(grids[grids.len() - 1]) is None);
        assert forall|i: int| 0 <= i < grids.drop_last().len() implies reading(
            #[trigger] grids.drop_last()[i],
        ) is None by {
            assert(grids.drop_last()[i] == grids[i]);
        }
        lemma_nothing_collected(results, grids.drop_last(), placement, dedup);
    }
}

/// Bringing a region search to its next stop changes neither the frame nor
/// what was found, goes forward only, and ends either at a tile that can be
/// enlarged or with the detection done.
pub proof fn lemma_settled(m: DetectionModel)
    requires
        m.stage == Stage::Regions,
        0 <= m.next <= 12,
    ensures
        m.settled().results == m.results,
        m.settled().width == m.width,
        m.settled().height == m.height,
        m.settled().pixels == m.pixels,
        m.settled().policy == m.policy,
        m.next <= m.settled().next <= 12,
        m.settled().stage == Stage::Regions || m.settled().stage == Stage::Done,
        m.settled().stage == Stage::Regions ==> m.settled().pending_tile() is Some
            && m.settled().pending_tile()->Some_0.feasible(),
        m.settled().stage == Stage::Done ==> m.settled().pending_tile() is None,
        m.pending_tile() is Some && m.pending_tile()->Some_0.feasible() ==> m.settled() == m,
    decreases 12 - m.next,
{
    if m.pending_tile() is Some && !m.pending_tile()->Some_0.feasible() {
        lemma_settled(m.past_tile(m.results));
    }
}

/// A step leaves a well-formed detection well formed, never goes back to
/// the whole frame, and never goes back in the order of tiles.
pub proof fn lemma_step_keeps_wf(m: DetectionModel, grids: Seq<GridModel>)
    requires
        m.wf(),
    ensures
        m.step(grids).wf(),
        m.step(grids).stage != Stage::Whole,
        m.step(grids).next >= m.next,
        m.stage == Stage::Regions ==> m.step(grids).next > m.next,
        m.step(grids).width == m.width,
        m.step(grids).height == m.height,
        m.step(grids).pixels == m.pixels,
        m.step(grids).policy == m.policy,
{
    match m.stage {
        Stage::Whole => {
            if whole_results(grids).len() == 0 {
                lemma_settled(m.at_stage(Stage::Regions));
            }
        },
        Stage::Regions => {
            lemma_settled(m.past_tile(m.with_tile(grids)));
        },
        Stage::Done => {},
    }
}

/// What the whole frame shows is the result, and ends the detection: no
/// region is searched.
pub proof fn lemma_whole_pass_decides(m: DetectionModel, grids: Seq<GridModel>)
    requires
        m.wf(),
        m.stage == Stage::Whole,
        whole_results(grids).len() > 0,
    ensures
        m.step(grids).stage == Stage::Done,
        m.step(grids).results == whole_results(grids),
        m.step(grids).next == 0,
{
}

/// Where the whole frame shows nothing and the frame has a side under 400
/// pixels, the detection is done with nothing found: no region is searched.
pub proof fn lemma_small_frame_is_not_searched(m: DetectionModel, grids: Seq<GridModel>)
    requires
        m.wf(),
        m.stage == Stage::Whole,
        whole_results(grids).len() == 0,
        m.width < 400 || m.height < 400,
    ensures
        m.step(grids).stage == Stage::Done,
        m.step(grids).results.len() == 0,
        m.step(grids).next == 0,
{
    reveal_with_fuel(DetectionModel::settled, 2);
}

/// A search that stops at the first match ends with the first tile that
/// shows anything: what that tile shows is the whole result, and no tile
/// after it is asked for.
pub proof fn lemma_first_match_ends_search(m: DetectionModel, grids: Seq<GridModel>)
    requires
        m.wf(),
        m.stage == Stage::Regions,
        m.policy == SearchPolicy::StopAtFirstMatch,
        m.with_tile(grids).len() > 0,
    ensures
        m.results.len() == 0,
        m.step(grids).stage == Stage::Done,
        m.step(grids).next == m.next + 1,
        m.step(grids).results == collected(
            Seq::empty(),
            grids,
            tile_at(m.width, m.height, m.next).placement(),
            true,
        ),
{
    assert(m.results =~= Seq::<QrModel>::empty());
    reveal_with_fuel(DetectionModel::settled, 2);
}

/// A detection that is done takes nothing in: symbols that only later
/// tiles would show are not reported.
pub proof fn lemma_done_takes_nothing(m: DetectionModel, grids: Seq<GridModel>)
    requires
        m.stage == Stage::Done,
    ensures
        m.step(grids) == m,
{
}

/// In the region search, an image in which nothing decodes adds nothing.
pub proof fn lemma_blank_tile_adds_nothing(m: DetectionModel, grids: Seq<GridModel>)
    requires
        m.wf(),
        shows_nothing(grids),
    ensures
        m.step(grids).results == m.results,
{
    match m.stage {
        Stage::Whole => {
            lemma_nothing_collected(Seq::empty(), grids, Placement::whole(), false);
            lemma_settled(m.at_stage(Stage::Regions));
            assert(m.results =~= Seq::<QrModel>::empty());
        },
        Stage::Regions => {
            lemma_nothing_collected(
                m.results,
                grids,
                tile_at(m.width, m.height, m.next).placement(),
                true,
            );
            lemma_settled(m.past_tile(m.with_tile(grids)));
        },
        Stage::Done => {},
    }
}

/// The detection after a run of steps, each with the grids of one image.
pub open spec fn run(m: DetectionModel, events: Seq<Seq<GridModel>>) -> DetectionModel
    decreases events.len(),
{
    if events.len() == 0 {
        m
    } else {
        run(m, events.drop_last()).step(events.last())
    }
}

/// After at least one step a detection is past the whole frame, and after
/// `k` steps past at least `k - 1` tiles or done.
pub proof fn lemma_run_goes_forward(m: DetectionModel, events: Seq<Seq<GridModel>>)
    requires
        m.wf(),
        m.stage == Stage::Whole,
    ensures
        run(m, events).wf(),
        run(m, events).width == m.width,
        run(m, events).height == m.height,
        run(m, events).policy == m.policy,
        events.len() > 0 ==> run(m, events).stage != Stage::Whole,
        events.len() > 0 ==> run(m, events).stage == Stage::Done || run(m, events).next
            >= events.len() - 1,
    decreases events.len(),
{
    if events.len() > 0 {
        lemma_run_goes_forward(m, events.drop_last());
        lemma_step_keeps_wf(run(m, events.drop_last()), events.last());
    }
}

/// A frame in which nothing decodes, neither as a whole nor in any tile,
/// gives an empty result, and the detection is done after the whole frame
/// and at most twelve tiles.
pub proof fn lemma_blank_frame_yields_nothing(m: DetectionModel, events: Seq<Seq<GridModel>>)
    requires
        m.wf(),
        m.stage == Stage::Whole,
        forall|k: int| 0 <= k < events.len() ==> shows_nothing(#[trigger] events[k]),
    ensures
        run(m, events).results.len() == 0,
        events.len() >= 13 ==> run(m, events).stage == Stage::Done,
    decreases events.len(),
{
    lemma_run_goes_forward(m, events);
    if events.len() > 0 {
        let before = events.drop_last();
        assert forall|k: int| 0 <= k < before.len() implies shows_nothing(#[trigger] before[k]) by {
            assert(before[k] == events[k]);
        }
        lemma_blank_frame_yields_nothing(m, before);
        lemma_run_goes_forward(m, before);
        assert(shows_nothing(events[events.len() - 1]));
        lemma_blank_tile_adds_nothing(run(m, before), events.last());
    }
}

/// All twelve tiles of a frame can be enlarged.
pub open spec fn every_tile_feasible(width: u32, height: u32) -> bool {
    forall|index: int| 0 <= index < 12 ==> (#[trigger] tile_at(width, height, index)).feasible()
}

/// In a frame that is large enough and whose tiles can all be enlarged, a
/// detection that finds nothing asks for exactly thirteen images: the whole
/// frame, then the twelve tiles in their order. Before the thirteenth step
/// it is not done, and the tile it asks for after `k` steps is tile `k - 1`.
pub proof fn lemma_blank_frame_visits_every_tile(m: DetectionModel, events: Seq<Seq<GridModel>>)
    requires
        m.wf(),
        m.stage == Stage::Whole,
        m.width >= 400,
        m.height >= 400,
        every_tile_feasible(m.width, m.height),
        forall|k: int| 0 <= k < events.len() ==> shows_nothing(#[trigger] events[k]),
        1 <= events.len() <= 13,
    ensures
        run(m, events).next == events.len() - 1,
        events.len() <= 12 ==> run(m, events).stage == Stage::Regions,
        events.len() == 13 ==> run(m, events).stage == Stage::Done,
    decreases events.len(),
{
    let before = events.drop_last();
    assert forall|k: int| 0 <= k < before.len() implies shows_nothing(#[trigger] before[k]) by {
        assert(before[k] == events[k]);
    }
    assert(shows_nothing(events[events.len() - 1]));
    lemma_blank_frame_yields_nothing(m, before);
    lemma_run_goes_forward(m, before);
    let at = run(m, before);
    reveal_with_fuel(DetectionModel::settled, 2);
    if events.len() == 1 {
        assert(before =~= Seq::<Seq<GridModel>>::empty());
        lemma_nothing_collected(Seq::empty(), events.last(), Placement::whole(), false);
        assert(tile_at(m.width, m.height, 0).feasible());
    } else {
        lemma_blank_frame_visits_every_tile(m, before);
        lemma_nothing_collected(
            at.results,
            events.last(),
            tile_at(at.width, at.height, at.next).placement(),
            true,
        );
        if events.len() <= 12 {
            assert(tile_at(m.width, m.height, events.len() - 1).feasible());
        }
    }
}

/// The region search never reports a text twice, however many grids and
/// tiles show it: a step keeps the texts distinct.
pub proof fn lemma_regions_report_once(m: DetectionModel, grids: Seq<GridModel>)
    requires
        m.wf(),
        m.stage == Stage::Regions,
        distinct_payloads(m.results),
    ensures
        distinct_payloads(m.step(grids).results),
{
    lemma_collected_once(m.results, grids, tile_at(m.width, m.height, m.next).placement());
    lemma_settled(m.past_tile(m.with_tile(grids)));
}

/// Once the whole frame has shown nothing, no text ever stands twice among
/// the results.
pub proof fn lemma_run_reports_once(m: DetectionModel, events: Seq<Seq<GridModel>>)
    requires
        m.wf(),
        m.stage == Stage::Whole,
        events.len() >= 1,
        whole_results(events[0]).len() == 0,
    ensures
        distinct_payloads(run(m, events).results),
    decreases events.len(),
{
    let before = events.drop_last();
    lemma_run_goes_forward(m, before);
    if events.len() == 1 {
        assert(before =~= Seq::<Seq<GridModel>>::empty());
        lemma_settled(m.at_stage(Stage::Regions));
    } else {
        assert(before[0] == events[0]);
        lemma_run_reports_once(m, before);
        if run(m, before).stage == Stage::Regions {
            lemma_regions_report_once(run(m, before), events.last());
        }
    }
}

/// The region search reports the text of every symbol that decodes in an
/// image handed in: once, by `lemma_regions_report_once`.
pub proof fn lemma_regions_report_every_text(m: DetectionModel, grids: Seq<GridModel>, i: int)
    requires
        m.wf(),
        m.stage == Stage::Regions,
        0 <= i < grids.len(),
        reading(grids[i]) is Some,
    ensures
        has_payload(m.step(grids).results, reading(grids[i])->Some_0.1),
{
    lemma_decoded_text_is_recorded(
        m.results,
        grids,
        tile_at(m.width, m.height, m.next).placement(),
        true,
        i,
    );
    lemma_settled(m.past_tile(m.with_tile(grids)));
}

/// What the region search has reported stays reported whatever comes after.
pub proof fn lemma_step_keeps_texts(m: DetectionModel, grids: Seq<GridModel>, text: Seq<char>)
    requires
        m.wf(),
        has_payload(m.results, text),
    ensures
        has_payload(m.step(grids).results, text),
{
    match m.stage {
        Stage::Whole => {},
        Stage::Regions => {
            let placement = tile_at(m.width, m.height, m.next).placement();
            lemma_collected_extends(m.results, grids, placement, true);
            lemma_settled(m.past_tile(m.with_tile(grids)));
            let k = choose|k: int| 0 <= k < m.results.len() && (#[trigger] m.results[k]).data == text;
            assert(m.step(grids).results[k].data == text);
        },
        Stage::Done => {},
    }
}

/// A line brought to a width has that width, and keeps the characters it had
/// up to there.
pub proof fn lemma_padded_width(line: Seq<char>, width: nat)
    ensures
        padded(line, width).len() == width,
        forall|i: int| 0 <= i < width && i < line.len() ==> padded(line, width)[i] == line[i],
        forall|i: int| line.len() <= i < width ==> padded(line, width)[i] == FILLER,
{
}

/// A field that lies inside the line has the length of its range, and is the
/// line's characters there.
pub proof fn lemma_field_inside(line: Seq<char>, start: int, end: int)
    requires
        0 <= start <= end <= line.len(),
    ensures
        field(line, start, end).len() == end - start,
        forall|i: int| 0 <= i < end - start ==> field(line, start, end)[i] == line[start + i],
{
}

/// A name holds no digit `0`, whatever its segment held.
pub proof fn lemma_name_has_no_zero(segment: Seq<char>)
    ensures
        forall|i: int| 0 <= i < name_of(segment).len() ==> name_of(segment)[i] != '0',
{
}

/// A date of birth holds no letter `O`, and differs from its field only
/// where the field holds one.
pub proof fn lemma_birth_date_has_no_letter_o(digits: Seq<char>)
    ensures
        birth_date_of(digits).len() == digits.len(),
        forall|i: int| 0 <= i < digits.len() ==> birth_date_of(digits)[i] != 'O',
        forall|i: int|
            0 <= i < digits.len() && digits[i] != 'O' ==> birth_date_of(digits)[i] == digits[i],
{
}

/// The layout follows from the number of lines and the length of the first:
/// three lines are `TD1`; two are `TD3` if the first has 40 characters or
/// more, and `TD2` if not. Any other number of lines is an error, and no
/// line at all its own error.
pub proof fn lemma_classification(lines: Seq<Seq<char>>)
    ensures
        lines.len() == 3 ==> parse_lines(lines) == Ok::<MrzModel, MrzError>(td1_model(lines)),
        lines.len() == 2 && lines[0].len() >= 40 ==> parse_lines(lines) == Ok::<
            MrzModel,
            MrzError,
        >(td3_model(lines)),
        lines.len() == 2 && lines[0].len() < 40 ==> parse_lines(lines) == Ok::<MrzModel, MrzError>(
            td2_model(lines),
        ),
        td1_model(lines).document_type == "TD1"@,
        td2_model(lines).document_type == "TD2"@,
        td3_model(lines).document_type == "TD3"@,
        lines.len() == 0 ==> parse_lines(lines) == Err::<MrzModel, MrzError>(
            MrzError::NoValidLines,
        ),
        lines.len() == 1 || (3 < lines.len() <= usize::MAX) ==> parse_lines(lines) == Err::<
            MrzModel,
            MrzError,
        >(MrzError::UnsupportedLineCount { count: lines.len() as usize }),
{
}

/// The three layouts have different names.
pub proof fn lemma_layout_names_differ()
    ensures
        "TD1"@ != "TD2"@,
        "TD1"@ != "TD3"@,
        "TD2"@ != "TD3"@,
{
    reveal_strlit("TD1");
    reveal_strlit("TD2");
    reveal_strlit("TD3");
    assert("TD1"@[2] == '1');
    assert("TD2"@[2] == '2');
    assert("TD3"@[2] == '3');
}

/// The lines of the record are as many and as wide as the layout says, and
/// the fixed fields as long as their ranges.
pub open spec fn well_laid_out(record: MrzModel, count: nat, width: nat) -> bool {
    &&& record.raw_mrz.len() == count
    &&& forall|i: int| 0 <= i < count ==> (#[trigger] record.raw_mrz[i]).len() == width
    &&& record.issuing_country.len() == 3
    &&& record.nationality.len() == 3
    &&& record.sex.len() == 1
    &&& record.date_of_birth.len() == 6
    &&& record.date_of_expiry.len() == 6
    &&& record.document_number.len() <= 9
    &&& record.confidence_percent == CONFIDENCE_PERCENT
}

/// Dropping the fillers at the end does not make a text longer.
pub proof fn lemma_trim_end_char_shortens(s: Seq<char>, c: char)
    ensures
        trim_end_char(s, c).len() <= s.len(),
    decreases s.len(),
{
    if s.len() > 0 && s.last() == c {
        lemma_trim_end_char_shortens(s.drop_last(), c);
    }
}

/// Every record has the lines and field widths of its layout: an identity
/// card three lines of 30, an official document two of 36, a passport two
/// of 44.
pub proof fn lemma_record_is_well_laid_out(lines: Seq<Seq<char>>)
    ensures
        well_laid_out(td1_model(lines), 3, 30),
        well_laid_out(td2_model(lines), 2, 36),
        well_laid_out(td3_model(lines), 2, 44),
{
    lemma_trim_end_char_shortens(field(padded(lines[0], 30), 5, 14), FILLER);
    lemma_trim_end_char_shortens(field(padded(lines[1], 36), 0, 9), FILLER);
    lemma_trim_end_char_shortens(field(padded(lines[1], 44), 0, 9), FILLER);
}

/// Putting one more `c` into a text changes nothing of the text without
/// its `c`s.
pub proof fn lemma_without_insert(s: Seq<char>, i: int, c: char)
    requires
        0 <= i <= s.len(),
    ensures
        without(s.insert(i, c), c) == without(s, c),
    decreases s.len(),
{
    let longer = s.insert(i, c);
    if i == s.len() {
        assert(longer.drop_last() =~= s);
    } else {
        assert(longer.last() == s.last());
        assert(longer.drop_last() =~= s.drop_last().insert(i, c));
        lemma_without_insert(s.drop_last(), i, c);
    }
}

/// A space more or less in a line makes no difference to the cleaned line.
pub proof fn lemma_cleaned_ignores_spaces(upper: Seq<char>, i: int)
    requires
        0 <= i <= upper.len(),
    ensures
        cleaned(upper.insert(i, ' ')) == cleaned(upper),
{
    lemma_without_insert(upper, i, ' ');
}

/// Only lines of at least 20 characters count, and they keep their order.
pub proof fn lemma_usable_lines_are_long(lines: Seq<Seq<char>>)
    ensures
        usable(lines).len() <= lines.len(),
        forall|i: int| 0 <= i < usable(lines).len() ==> (#[trigger] usable(lines)[i]).len() >= 20,
    decreases lines.len(),
{
    if lines.len() > 0 {
        lemma_usable_lines_are_long(lines.drop_last());
    }
}

/// A text is rejected exactly when the lines that count in it are neither
/// two nor three, and for having no such line exactly when it has none.
pub proof fn lemma_text_rejected(text: Seq<char>)
    ensures
        parse_text(text) is Err <==> usable(lines_of(text)).len() != 2 && usable(
            lines_of(text),
        ).len() != 3,
        parse_text(text) == Err::<MrzModel, MrzError>(MrzError::NoValidLines) <==> usable(
            lines_of(text),
        ).len() == 0,
{
}

} // verus!
