use wolffia::run;
use wolffia::startup::{main_window_label, SetupStep};

#[test]
fn release_shows_the_main_window() {
    assert_eq!(run(false, true), vec![SetupStep::ShowWindow]);
}

#[test]
fn release_without_main_window_does_nothing() {
    assert_eq!(run(false, false), Vec::new());
}

#[test]
fn development_opens_devtools_before_showing() {
    assert_eq!(run(true, true), vec![SetupStep::OpenDevtools, SetupStep::ShowWindow]);
}

#[test]
fn main_window_is_called_main() {
    assert_eq!(main_window_label(), "main");
}
