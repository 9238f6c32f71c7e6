use erudify::exercise::{ex_1, ex_2, Segment};
use erudify::page::{exercise_slots, segment_status, segment_width, study_cells, SegmentCell, SegmentSlot, SegmentStatus};

fn seg(chinese: &str, pinyin: &str) -> Segment {
    Segment { chinese: chinese.to_string(), pinyin: pinyin.to_string() }
}

#[test]
fn ex_1_is_i_am_a_student() {
    let ex = ex_1();
    assert_eq!(
        ex.segments,
        vec![seg("我", "wǒ"), seg("是", "shì"), seg("学生", "xué sheng"), seg("。", "")]
    );
    assert_eq!(ex.english, "I am a student.");
}

#[test]
fn ex_2_is_going_to_the_library() {
    let ex = ex_2();
    assert_eq!(
        ex.segments,
        vec![
            seg("明天", "míng tiān"),
            seg("我", "wǒ"),
            seg("会", "huì"),
            seg("去", "qù"),
            seg("图书馆", "tú shū guǎn"),
            seg("。", ""),
        ]
    );
    assert_eq!(ex.english, "I will go to the library tomorrow.");
}

#[test]
fn segment_new_keeps_both_texts() {
    assert_eq!(Segment::new("学生", "xué sheng"), seg("学生", "xué sheng"));
}

#[test]
fn start_page_form_puts_the_box_at_index_one() {
    let slots = exercise_slots(&ex_2(), 1);
    assert_eq!(
        slots,
        vec![
            SegmentSlot::Text("明天".to_string()),
            SegmentSlot::Input,
            SegmentSlot::Text("会".to_string()),
            SegmentSlot::Text("去".to_string()),
            SegmentSlot::Text("图书馆".to_string()),
            SegmentSlot::Text("。".to_string()),
        ]
    );
}

#[test]
fn form_has_no_box_past_the_end() {
    let slots = exercise_slots(&ex_1(), 4);
    assert_eq!(slots.len(), 4);
    assert!(slots.iter().all(|s| *s != SegmentSlot::Input));
}

#[test]
fn form_has_exactly_one_box_at_each_position() {
    let ex = ex_2();
    for index in 0..ex.segments.len() {
        let slots = exercise_slots(&ex, index);
        let boxes: Vec<usize> =
            (0..slots.len()).filter(|&i| slots[i] == SegmentSlot::Input).collect();
        assert_eq!(boxes, vec![index]);
    }
}

#[test]
fn study_cells_of_ex_1_at_second_segment() {
    let cells = study_cells(&ex_1(), 1);
    assert_eq!(
        cells,
        vec![
            SegmentCell { status: SegmentStatus::Done, width: 1 },
            SegmentCell { status: SegmentStatus::Current, width: 1 },
            SegmentCell { status: SegmentStatus::Future, width: 2 },
            SegmentCell { status: SegmentStatus::Done, width: 1 },
        ]
    );
}

#[test]
fn punctuation_is_always_done() {
    let stop = seg("。", "");
    assert_eq!(segment_status(3, 3, &stop), SegmentStatus::Done);
    assert_eq!(segment_status(5, 0, &stop), SegmentStatus::Done);
}

#[test]
fn status_never_goes_back_as_the_learner_moves_on() {
    let s = seg("图书馆", "tú shū guǎn");
    let order = |st: SegmentStatus| match st {
        SegmentStatus::Future => 0,
        SegmentStatus::Current => 1,
        SegmentStatus::Done => 2,
    };
    for index in 0..6 {
        assert!(order(segment_status(2, index, &s)) <= order(segment_status(2, index + 1, &s)));
    }
    assert_eq!(segment_status(2, 1, &s), SegmentStatus::Future);
    assert_eq!(segment_status(2, 2, &s), SegmentStatus::Current);
    assert_eq!(segment_status(2, 3, &s), SegmentStatus::Done);
}

#[test]
fn width_counts_characters_not_bytes() {
    assert_eq!(segment_width(&seg("图书馆", "tú shū guǎn")), 3);
    assert_eq!(segment_width(&seg("", "")), 0);
}
