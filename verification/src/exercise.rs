//! Exercises: a Chinese sentence cut into segments, with its English meaning.
use vstd::prelude::*;

verus! {

/// One piece of a sentence: Chinese characters and their pinyin reading.
/// Punctuation has an empty reading.
#[derive(Debug, Clone, PartialEq, Eq)]
pub struct Segment {
    pub chinese: String,
    pub pinyin: String,
}

/// A listening exercise: the segments of a Chinese sentence, in order, and its
/// English translation.
#[derive(Debug, Clone, PartialEq, Eq)]
pub struct Exercise {
    pub segments: Vec<Segment>,
    pub english: String,
}

/// `seg` holds exactly the given characters and reading.
pub open spec fn segment_is(seg: Segment, chinese: Seq<char>, pinyin: Seq<char>) -> bool {
    seg.chinese@ == chinese && seg.pinyin@ == pinyin
}

impl Segment {
    /// A segment built from its characters and reading.
    pub fn new(chinese: &str, pinyin: &str) -> (seg: Segment)
        ensures
            segment_is(seg, chinese@, pinyin@),
    {
        Segment { chinese: String::from_str(chinese), pinyin: String::from_str(pinyin) }
    }
}

/// 我是学生。 "I am a student."
pub fn ex_1() -> (ex: Exercise)
    ensures
        ex.segments@.len() == 4,
        segment_is(ex.segments@[0], "我"@, "wǒ"@),
        segment_is(ex.segments@[1], "是"@, "shì"@),
        segment_is(ex.segments@[2], "学生"@, "xué sheng"@),
        segment_is(ex.segments@[3], "。"@, ""@),
        ex.english@ == "I am a student."@,
{
    let mut segments: Vec<Segment> = Vec::new();
    segments.push(Segment::new("我", "wǒ"));
    segments.push(Segment::new("是", "shì"));
    segments.push(Segment::new("学生", "xué sheng"));
    segments.push(Segment::new("。", ""));
    Exercise { segments, english: String::from_str("I am a student.") }
}

/// 明天我会去图书馆。 "I will go to the library tomorrow."
pub fn ex_2() -> (ex: Exercise)
    ensures
        ex.segments@.len() == 6,
        segment_is(ex.segments@[0], "明天"@, "míng tiān"@),
        segment_is(ex.segments@[1], "我"@, "wǒ"@),
        segment_is(ex.segments@[2], "会"@, "huì"@),
        segment_is(ex.segments@[3], "去"@, "qù"@),
        segment_is(ex.segments@[4], "图书馆"@, "tú shū guǎn"@),
        segment_is(ex.segments@[5], "。"@, ""@),
        ex.english@ == "I will go to the library tomorrow."@,
{
    let mut segments: Vec<Segment> = Vec::new();
    segments.push(Segment::new("明天", "míng tiān"));
    segments.push(Segment::new("我", "wǒ"));
    segments.push(Segment::new("会", "huì"));
    segments.push(Segment::new("去", "qù"));
    segments.push(Segment::new("图书馆", "tú shū guǎn"));
    segments.push(Segment::new("。", ""));
    Exercise { segments, english: String::from_str("I will go to the library tomorrow.") }
}

} // verus!
