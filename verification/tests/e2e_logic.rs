use erudify::checks::{check_background_color, check_title_text, text_contains};
use erudify::readiness::{ProbeOutcome, Target, WaitAction, Waiter, MAX_PROBES};

#[test]
fn service_is_ready_on_status_200_only() {
    let w = Waiter::new(Target::Service);
    assert!(w.is_ready(ProbeOutcome::Answered(200)));
    assert!(!w.is_ready(ProbeOutcome::Answered(503)));
    assert!(!w.is_ready(ProbeOutcome::Answered(404)));
    assert!(!w.is_ready(ProbeOutcome::NoAnswer));
}

#[test]
fn webdriver_is_ready_on_any_answer() {
    let w = Waiter::new(Target::WebDriver);
    assert!(w.is_ready(ProbeOutcome::Answered(500)));
    assert!(w.is_ready(ProbeOutcome::Answered(200)));
    assert!(!w.is_ready(ProbeOutcome::NoAnswer));
}

#[test]
fn waiting_stops_on_the_first_success() {
    let mut w = Waiter::new(Target::Service);
    assert_eq!(w.record(ProbeOutcome::NoAnswer), WaitAction::SleepThenProbe);
    assert_eq!(w.record(ProbeOutcome::Answered(502)), WaitAction::SleepThenProbe);
    assert_eq!(w.record(ProbeOutcome::Answered(200)), WaitAction::Ready);
    assert_eq!(w.probes, 3);
}

#[test]
fn waiting_gives_up_after_sixty_failures() {
    let mut w = Waiter::new(Target::WebDriver);
    let mut actions = Vec::new();
    loop {
        let a = w.record(ProbeOutcome::NoAnswer);
        actions.push(a);
        if a != WaitAction::SleepThenProbe {
            break;
        }
    }
    assert_eq!(actions.len(), 60);
    assert_eq!(MAX_PROBES, 60);
    assert_eq!(*actions.last().unwrap(), WaitAction::SleepThenGiveUp);
    assert_eq!(w.probes, 60);
}

#[test]
fn success_on_the_last_probe_still_counts() {
    let mut w = Waiter::new(Target::Service);
    for _ in 0..59 {
        assert_eq!(w.record(ProbeOutcome::NoAnswer), WaitAction::SleepThenProbe);
    }
    assert_eq!(w.record(ProbeOutcome::Answered(200)), WaitAction::Ready);
}

#[test]
fn contains_finds_substrings() {
    assert!(text_contains("Erudify", "Erudify"));
    assert!(text_contains("Welcome to Erudify", "Erudify"));
    assert!(text_contains("abc", ""));
    assert!(text_contains("", ""));
    assert!(text_contains("学生 study", "生 s"));
    assert!(!text_contains("Erud", "Erudify"));
    assert!(!text_contains("erudify", "Erudify"));
    assert!(!text_contains("", "a"));
    assert!(text_contains("aaab", "aab"));
}

#[test]
fn title_check_passes_or_quotes_both() {
    assert_eq!(check_title_text("Erudify", "Erudify"), Ok(()));
    assert_eq!(
        check_title_text("Leptos App", "Erudify"),
        Err("Page title 'Leptos App' does not contain 'Erudify'".to_string())
    );
}

#[test]
fn stylesheet_check() {
    assert_eq!(check_background_color("rgb(243, 244, 246)"), Ok(()));
    assert_eq!(
        check_background_color(""),
        Err("CSS styles not loaded - background-color is empty".to_string())
    );
}
