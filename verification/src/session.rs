//! The state of a study session: which segment the learner is at and what
//! they have typed so far.
use vstd::prelude::*;
use crate::text::{answer_value, unicode_lowercase};

verus! {

/// A study session on one exercise.
#[derive(Debug, Clone, PartialEq, Eq)]
pub struct StudySession {
    /// The position of the segment being typed.
    pub nth: usize,
    /// The text in the answer box.
    pub input: String,
}

impl StudySession {
    /// A session at the first segment with an empty answer box.
    pub fn new() -> (s: StudySession)
        ensures
            s.nth == 0,
            s.input@ == Seq::<char>::empty(),
    {
        StudySession { nth: 0, input: String::new() }
    }

    /// The learner submitted the answer: move to the next segment and empty the
    /// answer box.
    pub fn on_submit(&mut self)
        requires
            old(self).nth < usize::MAX,
        ensures
            final(self).nth == old(self).nth + 1,
            final(self).input@ == Seq::<char>::empty(),
    {
        self.nth = self.nth + 1;
        self.input = String::new();
    }

    /// The learner typed: the answer box now holds the lowercase of the typed
    /// text, and the position does not move.
    pub fn on_input(&mut self, typed: &str)
        ensures
            final(self).nth == old(self).nth,
            final(self).input@ == unicode_lowercase(typed@),
    {
        self.input = answer_value(typed);
    }
}

/// An event of the study page.
#[derive(Debug, Clone, PartialEq, Eq)]
pub enum SessionEvent {
    /// The learner submitted the answer.
    Submit,
    /// The learner typed; the answer box now holds this text.
    Input(String),
}

impl View for SessionEvent {
    type V = Option<Seq<char>>;

    /// `None` for a submission, or the typed text.
    open spec fn view(&self) -> Option<Seq<char>> {
        match self {
            SessionEvent::Submit => None,
            SessionEvent::Input(t) => Some(t@),
        }
    }
}

impl StudySession {
    /// Handles one event of the study page.
    pub fn apply(&mut self, event: &SessionEvent)
        requires
            event is Submit ==> old(self).nth < usize::MAX,
        ensures
            (final(self).nth as int, final(self).input@) == after_event(
                old(self).nth as int,
                old(self).input@,
                event@,
            ),
            match event {
                SessionEvent::Submit => final(self).nth == old(self).nth + 1
                    && final(self).input@ == Seq::<char>::empty(),
                SessionEvent::Input(t) => final(self).nth == old(self).nth
                    && final(self).input@ == unicode_lowercase(t@),
            },
    {
        match event {
            SessionEvent::Submit => self.on_submit(),
            SessionEvent::Input(typed) => self.on_input(typed.as_str()),
        }
    }

    /// The session that a series of events leads to from a new session.
    pub fn replay(events: &Vec<SessionEvent>) -> (s: StudySession)
        requires
            submissions(events@.map_values(|e: SessionEvent| e@)) < usize::MAX,
        ensures
            (s.nth as int, s.input@) == after_events(
                0,
                Seq::<char>::empty(),
                events@.map_values(|e: SessionEvent| e@),
            ),
            s.nth == submissions(events@.map_values(|e: SessionEvent| e@)),
    {
        let ghost evs = events@.map_values(|e: SessionEvent| e@);
        let mut s = StudySession::new();
        let n = events.len();
        proof {
            lemma_position_counts_submissions(0, Seq::<char>::empty(), evs);
            lemma_no_events(0, Seq::<char>::empty(), evs);
            assert(evs.take(0) =~= Seq::<Option<Seq<char>>>::empty());
        }
        for k in 0..n
            invariant
                n == events@.len(),
                evs == events@.map_values(|e: SessionEvent| e@),
                submissions(evs) < usize::MAX,
                (s.nth as int, s.input@) == after_events(0, Seq::<char>::empty(), evs.take(k as int)),
                s.nth == submissions(evs.take(k as int)),
        {
            proof {
                lemma_submissions_prefix(evs, k as int);
                lemma_after_events_push(0, Seq::<char>::empty(), evs.take(k as int), evs[k as int]);
                assert(evs.take(k + 1) =~= evs.take(k as int).push(evs[k as int]));
                lemma_submissions_push(evs.take(k as int), evs[k as int]);
            }
            s.apply(&events[k]);
        }
        proof {
            assert(evs.take(n as int) =~= evs);
        }
        s
    }
}

/// What a session looks like after one event: `None` for a submission, or the
/// typed text.
pub open spec fn after_event(nth: int, input: Seq<char>, event: Option<Seq<char>>) -> (int, Seq<char>) {
    match event {
        None => (nth + 1, Seq::<char>::empty()),
        Some(typed) => (nth, unicode_lowercase(typed)),
    }
}

/// The session after a series of events, from a given state.
pub open spec fn after_events(nth: int, input: Seq<char>, events: Seq<Option<Seq<char>>>) -> (int, Seq<char>)
    decreases events.len(),
{
    if events.len() == 0 {
        (nth, input)
    } else {
        let (n2, i2) = after_event(nth, input, events[0]);
        after_events(n2, i2, events.drop_first())
    }
}

/// The number of submissions in a series of events.
pub open spec fn submissions(events: Seq<Option<Seq<char>>>) -> int
    decreases events.len(),
{
    if events.len() == 0 {
        0
    } else {
        (if events[0] is None { 1int } else { 0int }) + submissions(events.drop_first())
    }
}

/// The position of the learner moves by exactly one for each submission,
/// whatever was typed in between.
pub proof fn lemma_position_counts_submissions(
    nth: int,
    input: Seq<char>,
    events: Seq<Option<Seq<char>>>,
)
    ensures
        after_events(nth, input, events).0 == nth + submissions(events),
    decreases events.len(),
{
    if events.len() > 0 {
        let (n2, i2) = after_event(nth, input, events[0]);
        lemma_position_counts_submissions(n2, i2, events.drop_first());
    }
}

/// Whatever was typed before a submission is forgotten by it: typing and then
/// submitting ends where submitting alone does.
pub proof fn lemma_submit_forgets_typing(nth: int, input: Seq<char>, typed: Seq<char>)
    ensures
        after_events(nth, input, seq![Some(typed), None]) == after_events(nth, input, seq![None]),
{
    reveal_with_fuel(after_events, 3);
    assert(seq![Some(typed), None].drop_first() =~= seq![None]);
    assert(seq![Some(typed), None].drop_first().drop_first() =~= Seq::<Option<Seq<char>>>::empty());
    assert(seq![None::<Seq<char>>].drop_first() =~= Seq::<Option<Seq<char>>>::empty());
}

/// Only the last typing counts: typing twice ends where typing the second text
/// alone does.
pub proof fn lemma_last_typing_wins(nth: int, input: Seq<char>, first: Seq<char>, second: Seq<char>)
    ensures
        after_events(nth, input, seq![Some(first), Some(second)]) == after_events(
            nth,
            input,
            seq![Some(second)],
        ),
{
    reveal_with_fuel(after_events, 3);
    assert(seq![Some(first), Some(second)].drop_first() =~= seq![Some(second)]);
    assert(seq![Some(second)].drop_first() =~= Seq::<Option<Seq<char>>>::empty());
}

/// Running a series of events and then one more is running the series and
/// then that event.
proof fn lemma_after_events_push(
    nth: int,
    input: Seq<char>,
    events: Seq<Option<Seq<char>>>,
    e: Option<Seq<char>>,
)
    ensures
        after_events(nth, input, events.push(e)) == {
            let (n2, i2) = after_events(nth, input, events);
            after_event(n2, i2, e)
        },
    decreases events.len(),
{
    if events.len() == 0 {
        reveal_with_fuel(after_events, 2);
        assert(events.push(e).drop_first() =~= Seq::<Option<Seq<char>>>::empty());
    } else {
        assert(events.push(e)[0] == events[0]);
        let (n2, i2) = after_event(nth, input, events[0]);
        assert(events.push(e).drop_first() =~= events.drop_first().push(e));
        lemma_after_events_push(n2, i2, events.drop_first(), e);
    }
}

/// Counting submissions of a series and then one more event.
proof fn lemma_submissions_push(events: Seq<Option<Seq<char>>>, e: Option<Seq<char>>)
    ensures
        submissions(events.push(e)) == submissions(events) + (if e is None { 1int } else { 0int }),
    decreases events.len(),
{
    if events.len() > 0 {
        assert(events.push(e)[0] == events[0]);
        assert(events.push(e).drop_first() =~= events.drop_first().push(e));
        lemma_submissions_push(events.drop_first(), e);
    } else {
        reveal_with_fuel(submissions, 2);
        assert(events.push(e).drop_first() =~= Seq::<Option<Seq<char>>>::empty());
    }
}

/// A prefix of a series has no more submissions than the series.
proof fn lemma_submissions_prefix(events: Seq<Option<Seq<char>>>, k: int)
    requires
        0 <= k <= events.len(),
    ensures
        submissions(events.take(k)) <= submissions(events),
    decreases events.len() - k,
{
    if k < events.len() {
        lemma_submissions_prefix(events, k + 1);
        assert(events.take(k + 1) =~= events.take(k).push(events[k]));
        lemma_submissions_push(events.take(k), events[k]);
    } else {
        assert(events.take(k) =~= events);
    }
}

/// The empty series leaves the session as it was.
proof fn lemma_no_events(nth: int, input: Seq<char>, events: Seq<Option<Seq<char>>>)
    ensures
        after_events(nth, input, events.take(0)) == (nth, input),
        submissions(events.take(0)) == 0,
{
    assert(events.take(0) =~= Seq::<Option<Seq<char>>>::empty());
}

/// One event of the model: a submission moves on by one and empties the box;
/// typing, whatever the text and whatever was in the box, keeps the position
/// and leaves the Unicode lowercase of the typed text.
pub proof fn lemma_one_event(nth: int, input: Seq<char>)
    ensures
        after_event(nth, input, None) == (nth + 1, Seq::<char>::empty()),
        forall|typed: Seq<char>| #[trigger] after_event(nth, input, Some(typed)) == (
            nth,
            unicode_lowercase(typed),
        ),
{
}

} // verus!
