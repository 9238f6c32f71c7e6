use erudify::session::StudySession;
use erudify::text::{ascii_upper_of, answer_value, shouting_text, sized_input_value};

#[test]
fn shouting_test_gives_test_in_capitals() {
    assert_eq!(shouting_text("test"), "TEST");
}

#[test]
fn shouting_leaves_non_ascii_letters_alone() {
    assert_eq!(shouting_text("wǒ shì xué sheng, ß!"), "Wǒ SHì XUé SHENG, ß!");
    assert_eq!(shouting_text(""), "");
}

#[test]
fn shouting_twice_is_shouting_once() {
    let once = shouting_text("Hello, 世界 abc");
    assert_eq!(shouting_text(&once), once);
}

#[test]
fn ascii_upper_of_single_characters() {
    assert_eq!(ascii_upper_of('a'), 'A');
    assert_eq!(ascii_upper_of('z'), 'Z');
    assert_eq!(ascii_upper_of('Z'), 'Z');
    assert_eq!(ascii_upper_of('{'), '{');
    assert_eq!(ascii_upper_of('é'), 'é');
}

#[test]
fn answer_box_shows_unicode_uppercase() {
    assert_eq!(sized_input_value("wo"), "WO");
    assert_eq!(sized_input_value("straße"), "STRASSE");
}

#[test]
fn typed_answer_is_kept_in_lowercase() {
    assert_eq!(answer_value("WǑ Shì"), "wǒ shì");
}

#[test]
fn new_session_starts_at_zero_with_empty_box() {
    let s = StudySession::new();
    assert_eq!(s.nth, 0);
    assert_eq!(s.input, "");
}

#[test]
fn typing_keeps_position_and_lowercases() {
    let mut s = StudySession::new();
    s.on_input("MÍNG");
    assert_eq!(s.nth, 0);
    assert_eq!(s.input, "míng");
}

#[test]
fn submit_moves_on_and_empties_the_box() {
    let mut s = StudySession::new();
    s.on_input("Ming");
    s.on_submit();
    assert_eq!(s.nth, 1);
    assert_eq!(s.input, "");
    s.on_submit();
    assert_eq!(s.nth, 2);
}

#[test]
fn typing_before_submit_is_forgotten() {
    let mut a = StudySession::new();
    a.on_input("tian");
    a.on_submit();
    let mut b = StudySession::new();
    b.on_submit();
    assert_eq!(a, b);
}

#[test]
fn last_typing_wins() {
    let mut a = StudySession::new();
    a.on_input("first");
    a.on_input("SECOND");
    let mut b = StudySession::new();
    b.on_input("SECOND");
    assert_eq!(a, b);
}

use erudify::session::SessionEvent;

#[test]
fn apply_dispatches_both_events() {
    let mut s = StudySession::new();
    s.apply(&SessionEvent::Input("NǏ".to_string()));
    assert_eq!(s.input, "nǐ");
    assert_eq!(s.nth, 0);
    s.apply(&SessionEvent::Submit);
    assert_eq!(s, StudySession { nth: 1, input: String::new() });
}

#[test]
fn replay_counts_submissions_and_keeps_the_last_text() {
    let events = vec![
        SessionEvent::Input("A".to_string()),
        SessionEvent::Submit,
        SessionEvent::Input("B".to_string()),
        SessionEvent::Submit,
        SessionEvent::Submit,
        SessionEvent::Input("CÉ".to_string()),
    ];
    let s = StudySession::replay(&events);
    assert_eq!(s.nth, 3);
    assert_eq!(s.input, "cé");
    assert_eq!(StudySession::replay(&vec![]), StudySession::new());
}
