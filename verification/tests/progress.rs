use std::sync::atomic::AtomicU64;
use std::sync::atomic::Ordering;

use lib::commands::parse_command;
use lib::commands::same_text;
use lib::commands::Command;
use lib::lazy::lazy_init;
use lib::lazy::resolve_lazy;
use lib::lazy::LazyValue;
use lib::progress::average;
use lib::progress::progress_step;
use lib::progress::stats_step;
use lib::progress::Progress;
use lib::progress::StatsStep;

#[test]
fn average_of_zero_to_thousand() {
    let numbers: Vec<usize> = (0..=1000).collect();
    assert_eq!(average(&numbers), 500);
}

#[test]
fn average_rounds_down() {
    assert_eq!(average(&vec![1, 2]), 1);
    assert_eq!(average(&vec![7]), 7);
    assert_eq!(average(&vec![3, 3, 4]), 3);
}

#[test]
fn progress_steps() {
    assert_eq!(progress_step(0), Progress::Working(0));
    assert_eq!(progress_step(99), Progress::Working(99));
    assert_eq!(progress_step(100), Progress::Finished);
}

#[test]
fn stats_steps() {
    assert_eq!(stats_step(0), StatsStep::NothingYet);
    assert_eq!(stats_step(42), StatsStep::Report(42));
    assert_eq!(stats_step(100), StatsStep::Finished);
}

#[test]
fn commands() {
    assert!(matches!(parse_command("help"), Command::Help));
    assert!(matches!(parse_command("stop"), Command::Stop));
    match parse_command("go") {
        Command::Unknown(s) => assert_eq!(s, "go"),
        other => panic!("unexpected {:?}", other),
    }
    match parse_command("stop ") {
        Command::Unknown(s) => assert_eq!(s, "stop "),
        other => panic!("unexpected {:?}", other),
    }
    assert!(same_text("héllo", "héllo"));
    assert!(!same_text("help", "hel"));
    assert!(!same_text("help", "stop"));
}

#[test]
fn lazy_computes_once() {
    let x = AtomicU64::new(0);
    assert_eq!(lazy_init(&x), LazyValue::Computed(42));
    assert_eq!(x.load(Ordering::Relaxed), 42);
    assert_eq!(lazy_init(&x), LazyValue::Cached(42));
    assert_eq!(lazy_init(&x).value(), 42);
}

#[test]
fn lazy_decisions() {
    assert_eq!(resolve_lazy(0), LazyValue::Computed(42));
    assert_eq!(resolve_lazy(7), LazyValue::Cached(7));
}
