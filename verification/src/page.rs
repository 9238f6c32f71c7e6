//! What an exercise page shows for each segment of the sentence.
use vstd::prelude::*;
use crate::exercise::{Exercise, Segment};

verus! {

/// What the exercise form shows in place of one segment.
#[derive(Debug, Clone, PartialEq, Eq)]
pub enum SegmentSlot {
    /// The answer box, where the learner types the segment being heard.
    Input,
    /// The segment's Chinese text, shown as it is.
    Text(String),
}

/// The slot that the form shows for segment `i` when the learner is at `index`.
pub open spec fn slot_fits(slot: SegmentSlot, seg: Segment, i: int, index: int) -> bool {
    if i == index {
        slot is Input
    } else {
        slot matches SegmentSlot::Text(t) && t@ == seg.chinese@
    }
}

/// The slots of the exercise form, one per segment in order: the answer box at
/// position `index`, and the Chinese text of every other segment. So the form
/// holds exactly one answer box when `index` points at a segment, and none
/// when it points past the end.
pub fn exercise_slots(exercise: &Exercise, index: usize) -> (slots: Vec<SegmentSlot>)
    ensures
        slots@.len() == exercise.segments@.len(),
        index < slots@.len() ==> slots@[index as int] is Input,
        forall|i: int| 0 <= i < slots@.len() && #[trigger] slots@[i] is Input ==> i == index,
        forall|i: int|
            0 <= i < slots@.len() && i != index ==> (#[trigger] slots@[i] matches SegmentSlot::Text(
                t,
            ) && t@ == exercise.segments@[i].chinese@),
        forall|i: int|
            0 <= i < slots@.len() ==> slot_fits(
                #[trigger] slots@[i],
                exercise.segments@[i],
                i,
                index as int,
            ),
{
    let mut slots: Vec<SegmentSlot> = Vec::new();
    let n = exercise.segments.len();
    for j in 0..n
        invariant
            n == exercise.segments@.len(),
            slots@.len() == j,
            forall|i: int|
                0 <= i < j ==> slot_fits(
                    #[trigger] slots@[i],
                    exercise.segments@[i],
                    i,
                    index as int,
                ),
    {
        if j == index {
            slots.push(SegmentSlot::Input);
        } else {
            slots.push(SegmentSlot::Text(exercise.segments[j].chinese.clone()));
        }
    }
    slots
}

/// How a segment is drawn on the study page.
#[derive(Debug, Clone, Copy, PartialEq, Eq)]
pub enum SegmentStatus {
    /// Already answered, or punctuation that needs no answer: shown as text.
    Done,
    /// The segment to type now: shown as an answer box.
    Current,
    /// Still to come: shown as text.
    Future,
}

/// The status of segment `nth` when the learner is at `index`: done when it
/// lies before `index` or has no pinyin; otherwise current at `index` and
/// future after it.
pub open spec fn status_of(nth: int, index: int, pinyin: Seq<char>) -> SegmentStatus {
    if nth < index || pinyin.len() == 0 {
        SegmentStatus::Done
    } else if nth == index {
        SegmentStatus::Current
    } else {
        SegmentStatus::Future
    }
}

/// One segment as the study page draws it: its status, and its width in
/// ems, one per Chinese character.
#[derive(Debug, Clone, Copy, PartialEq, Eq)]
pub struct SegmentCell {
    pub status: SegmentStatus,
    pub width: usize,
}

/// The status of segment `nth` of the study page when the learner is at `index`.
pub fn segment_status(nth: usize, index: usize, seg: &Segment) -> (status: SegmentStatus)
    ensures
        status == status_of(nth as int, index as int, seg.pinyin@),
{
    if nth < index || seg.pinyin.as_str().unicode_len() == 0 {
        SegmentStatus::Done
    } else if nth == index {
        SegmentStatus::Current
    } else {
        SegmentStatus::Future
    }
}

/// The width of a segment in ems: the number of its Chinese characters.
pub fn segment_width(seg: &Segment) -> (width: usize)
    ensures
        width == seg.chinese@.len(),
{
    seg.chinese.as_str().unicode_len()
}

/// The cells of the study page, one per segment in order.
pub fn study_cells(exercise: &Exercise, index: usize) -> (cells: Vec<SegmentCell>)
    ensures
        cells@.len() == exercise.segments@.len(),
        forall|i: int|
            0 <= i < cells@.len() ==> {
                &&& (#[trigger] cells@[i]).status == status_of(
                    i,
                    index as int,
                    exercise.segments@[i].pinyin@,
                )
                &&& cells@[i].width == exercise.segments@[i].chinese@.len()
            },
{
    let mut cells: Vec<SegmentCell> = Vec::new();
    let n = exercise.segments.len();
    for j in 0..n
        invariant
            n == exercise.segments@.len(),
            cells@.len() == j,
            forall|i: int|
                0 <= i < j ==> {
                    &&& (#[trigger] cells@[i]).status == status_of(
                        i,
                        index as int,
                        exercise.segments@[i].pinyin@,
                    )
                    &&& cells@[i].width == exercise.segments@[i].chinese@.len()
                },
    {
        let seg = &exercise.segments[j];
        cells.push(SegmentCell { status: segment_status(j, index, seg), width: segment_width(seg) });
    }
    cells
}

/// A slot fits segment `i` exactly when it is the answer box at the learner's
/// position and the segment's own Chinese text at every other position, before
/// or after it.
pub proof fn lemma_slot_fits_means(seg: Segment, index: int)
    ensures
        forall|slot: SegmentSlot| #[trigger] slot_fits(slot, seg, index, index) <==> slot is Input,
        forall|slot: SegmentSlot, i: int|
            i != index ==> (#[trigger] slot_fits(slot, seg, i, index) <==> (slot matches SegmentSlot::Text(
                t,
            ) && t@ == seg.chinese@)),
{
}

/// Moving on never brings a segment back: a segment done at `index` stays done
/// at every later position, and a future one becomes current only on reaching it.
pub proof fn lemma_progress_is_monotone(nth: int, index: int, later: int, pinyin: Seq<char>)
    requires
        index <= later,
    ensures
        status_of(nth, index, pinyin) is Done ==> status_of(nth, later, pinyin) is Done,
        status_of(nth, later, pinyin) is Future ==> status_of(nth, index, pinyin) is Future,
{
}

/// At any position at most one segment is current, and it is the one at that
/// position.
pub proof fn lemma_current_is_at_index(nth: int, index: int, pinyin: Seq<char>)
    ensures
        status_of(nth, index, pinyin) is Current <==> (nth == index && pinyin.len() > 0),
{
}

} // verus!
