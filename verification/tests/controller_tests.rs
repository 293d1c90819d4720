use std::cell::Cell;

use mugle_tui::controller::{
    Action, Controller, Phase, DEFAULT_POLL_INTERVAL, DEFAULT_SLEEP_QUANTUM,
};
use mugle_tui::mining::VIEW_MINING;
use mugle_tui::panel::{standard_views, StatusPanel};
use mugle_tui::theme::{BaseColor, BorderStyle, Color, Palette, Theme};
use mugle_tui::ui::UI;
use mugle_tui::version::VersionInfo;

type Dashboard = Controller<u64, StatusPanel<u64>>;

fn engine_theme() -> Theme {
    let c = Color::TerminalDefault;
    Theme {
        shadow: true,
        borders: BorderStyle::Borderless,
        palette: Palette {
            background: c,
            shadow: c,
            view: c,
            primary: c,
            secondary: c,
            tertiary: c,
            title_primary: c,
            title_secondary: c,
            highlight: c,
            highlight_inactive: c,
            highlight_text: c,
        },
    }
}

fn info() -> VersionInfo {
    VersionInfo { basic_info: String::from("basic"), detailed_info: String::from("detailed") }
}

fn controller() -> Dashboard {
    match Controller::new(Ok(()), standard_views(info()), "1.0.2", engine_theme()) {
        Ok(c) => c,
        Err(e) => panic!("construction failed: {}", e),
    }
}

fn mining(ui: &UI<u64, StatusPanel<u64>>) -> Option<u64> {
    match ui.views().panel(VIEW_MINING) {
        Some(StatusPanel::Mining(m)) => m.displayed(),
        _ => panic!("no mining panel"),
    }
}

#[test]
fn defaults_are_one_second_and_a_hundred_milliseconds() {
    assert_eq!(DEFAULT_POLL_INTERVAL, 1);
    assert_eq!(DEFAULT_SLEEP_QUANTUM, 100);
}

#[test]
fn new_controller_is_running_with_a_fresh_ui() {
    let c = controller();
    assert_eq!(c.phase(), Phase::Running);
    assert!(c.ui().is_running());
    assert_eq!(c.ui().frames(), 0);
    assert_eq!(c.ui().pending(), 0);
    assert_eq!(c.ui().requests(), 0);
    assert_eq!(c.ui().title(), "Mugle Miner Version 1.0.2");
    assert_eq!(c.ui().theme().palette.background, Color::Dark(BaseColor::Black));
}

#[test]
fn new_controller_fails_where_the_engine_did_not_start() {
    let r: Result<Dashboard, String> = Controller::new(
        Err(String::from("no terminal")),
        standard_views(info()),
        "1.0.2",
        engine_theme(),
    );
    match r {
        Err(e) => assert_eq!(e, "render engine failed to start: no terminal"),
        Ok(_) => panic!("construction went through"),
    }
}

#[test]
fn an_iteration_asks_for_the_sleep_quantum() {
    let mut c = controller();
    assert_eq!(c.tick(0, &|| 7u64), Action::Sleep(100));
    c.set_sleep_quantum(250);
    assert_eq!(c.tick(0, &|| 7u64), Action::Sleep(250));
    assert_eq!(c.ui().frames(), 2);
}

#[test]
fn no_poll_before_the_interval_has_elapsed() {
    let mut c = controller();
    c.set_poll_interval(5);
    let reads = Cell::new(0u32);
    let source = || {
        reads.set(reads.get() + 1);
        7u64
    };
    for now in [100i64, 101, 102, 103, 104] {
        assert_eq!(c.tick(now, &source), Action::Sleep(100));
        assert_eq!(c.ui().pending(), 0);
    }
    assert_eq!(reads.get(), 0);
    assert_eq!(mining(c.ui()), None);
}

#[test]
fn a_poll_once_the_interval_has_elapsed() {
    let mut c = controller();
    c.set_poll_interval(5);
    let reads = Cell::new(0u32);
    let source = || {
        reads.set(reads.get() + 1);
        7u64
    };
    assert_eq!(c.tick(100, &source), Action::Sleep(100));
    assert_eq!(c.tick(104, &source), Action::Sleep(100));
    assert_eq!(reads.get(), 0);
    assert_eq!(c.tick(105, &source), Action::Sleep(100));
    assert_eq!(reads.get(), 1);
    assert_eq!(c.ui().pending(), 1);
    assert_eq!(mining(c.ui()), None);
    assert_eq!(c.tick(105, &source), Action::Sleep(100));
    assert_eq!(reads.get(), 1);
    assert_eq!(c.ui().pending(), 0);
    assert_eq!(mining(c.ui()), Some(7));
}

#[test]
fn at_most_one_poll_per_interval() {
    let mut c = controller();
    c.set_poll_interval(3);
    let reads = Cell::new(0u32);
    let source = || {
        reads.set(reads.get() + 1);
        u64::from(reads.get())
    };
    let mut polled_at: Vec<i64> = Vec::new();
    for now in 0i64..=20 {
        for _ in 0..4 {
            let before = reads.get();
            assert_eq!(c.tick(now, &source), Action::Sleep(100));
            if reads.get() > before {
                assert_eq!(reads.get(), before + 1);
                polled_at.push(now);
            }
            assert!(c.ui().pending() <= 1);
        }
    }
    assert_eq!(polled_at, vec![3, 6, 9, 12, 15, 18]);
    assert_eq!(mining(c.ui()), Some(6));
}

#[test]
fn the_default_interval_polls_every_second() {
    let mut c = controller();
    let clock: Vec<i64> = vec![50, 50, 50, 51, 51, 52, 52, 52, 54];
    let reads = Cell::new(0u32);
    let source = || {
        reads.set(reads.get() + 1);
        9u64
    };
    assert!(!c.run(&source, &clock));
    assert_eq!(reads.get(), 3);
}

#[test]
fn an_interval_of_zero_polls_in_every_iteration() {
    let mut c = controller();
    c.set_poll_interval(0);
    let reads = Cell::new(0u64);
    let source = || {
        reads.set(reads.get() + 1);
        reads.get()
    };
    assert!(!c.run(&source, &vec![5, 5, 5]));
    assert_eq!(reads.get(), 3);
    assert_eq!(mining(c.ui()), Some(2));
    assert_eq!(c.ui().pending(), 1);
}

#[test]
fn a_clock_that_runs_backwards_polls_nothing() {
    let mut c = controller();
    let reads = Cell::new(0u32);
    let source = || {
        reads.set(reads.get() + 1);
        1u64
    };
    assert!(!c.run(&source, &vec![100, 90, 80, i64::MIN, 100]));
    assert_eq!(reads.get(), 0);
    assert!(!c.run(&source, &vec![101]));
    assert_eq!(reads.get(), 1);
}

#[test]
fn clock_readings_far_apart_do_not_overflow() {
    let mut c = controller();
    let reads = Cell::new(0u32);
    let source = || {
        reads.set(reads.get() + 1);
        1u64
    };
    // The poll clock starts at i64::MIN; the whole range of the clock later
    // one poll is due, and from then on the clock never gets ahead again.
    assert!(!c.run(&source, &vec![i64::MIN, i64::MAX, i64::MIN, i64::MAX]));
    assert_eq!(reads.get(), 1);
}

#[test]
fn shutdown_stops_the_ui_and_ends_the_run() {
    let mut c = controller();
    assert_eq!(c.tick(0, &|| 1u64), Action::Sleep(100));
    c.key('q');
    assert_eq!(c.phase(), Phase::ShuttingDown);
    assert_eq!(c.tick(0, &|| 1u64), Action::Exit);
    assert_eq!(c.phase(), Phase::Terminated);
    assert!(!c.ui().is_running());
}

#[test]
fn shutdown_sent_many_times_is_one_shutdown() {
    let mut once = controller();
    let mut often = controller();
    once.key('q');
    for _ in 0..5 {
        often.key('q');
    }
    assert_eq!(once.tick(10, &|| 1u64), Action::Exit);
    assert_eq!(often.tick(10, &|| 1u64), Action::Exit);
    assert_eq!(once.phase(), Phase::Terminated);
    assert_eq!(often.phase(), Phase::Terminated);
    assert_eq!(once.ui().frames(), often.ui().frames());
    assert_eq!(once.ui().pending(), often.ui().pending());
    assert_eq!(once.ui().requests(), 0);
    assert_eq!(often.ui().requests(), 4);
    // Nothing that follows has any effect.
    assert_eq!(often.tick(11, &|| 1u64), Action::Exit);
    assert_eq!(often.tick(12, &|| 1u64), Action::Exit);
    assert_eq!(often.ui().frames(), 1);
    assert_eq!(often.ui().requests(), 4);
    assert!(!often.ui().is_running());
    often.ui_mut().stop();
    assert!(!often.ui().is_running());
    assert_eq!(often.ui().frames(), 1);
}

#[test]
fn shutdown_goes_before_the_poll() {
    let mut c = controller();
    c.set_poll_interval(0);
    c.key('q');
    let reads = Cell::new(0u32);
    let source = || {
        reads.set(reads.get() + 1);
        1u64
    };
    assert_eq!(c.tick(0, &source), Action::Exit);
    assert_eq!(reads.get(), 0);
    assert_eq!(c.ui().pending(), 0);
}

#[test]
fn a_halted_ui_ends_the_run_without_a_poll() {
    let mut c = controller();
    c.set_poll_interval(0);
    c.ui_mut().stop();
    assert_eq!(c.phase(), Phase::Terminated);
    let reads = Cell::new(0u32);
    let source = || {
        reads.set(reads.get() + 1);
        1u64
    };
    assert_eq!(c.tick(1_000, &source), Action::Exit);
    assert_eq!(reads.get(), 0);
    assert_eq!(c.ui().frames(), 0);
    assert_eq!(c.ui().pending(), 0);
    assert!(c.run(&source, &vec![1_001, 1_002, 1_003]));
    assert_eq!(reads.get(), 0);
    assert_eq!(c.ui().frames(), 0);
}

#[test]
fn a_failed_send_is_swallowed_and_the_run_goes_on() {
    let mut c = controller();
    c.set_poll_interval(0);
    c.ui_mut().disconnect();
    let reads = Cell::new(0u32);
    let source = || {
        reads.set(reads.get() + 1);
        1u64
    };
    assert_eq!(c.tick(0, &source), Action::Sleep(100));
    assert_eq!(c.tick(1, &source), Action::Sleep(100));
    assert_eq!(reads.get(), 2);
    assert_eq!(c.ui().pending(), 0);
    assert_eq!(mining(c.ui()), None);
    assert_eq!(c.phase(), Phase::Running);
    c.ui_mut().stop();
    assert_eq!(c.tick(2, &source), Action::Exit);
    assert_eq!(reads.get(), 2);
}

#[test]
fn run_on_an_empty_script_does_nothing() {
    let mut c = controller();
    assert!(!c.run(&|| 1u64, &Vec::new()));
    assert_eq!(c.ui().frames(), 0);
    assert_eq!(c.phase(), Phase::Running);
}

#[test]
fn run_stops_at_the_iteration_that_ends_it() {
    let mut c = controller();
    c.key('q');
    assert!(c.run(&|| 1u64, &vec![1, 2, 3, 4, 5]));
    assert_eq!(c.ui().frames(), 1);
    assert_eq!(c.phase(), Phase::Terminated);
}

#[test]
fn run_is_the_iterations_one_by_one() {
    let clock: Vec<i64> = vec![0, 1, 1, 2, 4, 4, 5];
    let mut whole = controller();
    let mut stepwise = controller();
    assert!(!whole.run(&|| 3u64, &clock));
    for now in clock.iter() {
        assert_eq!(stepwise.tick(*now, &|| 3u64), Action::Sleep(100));
    }
    assert_eq!(whole.ui().frames(), stepwise.ui().frames());
    assert_eq!(whole.ui().pending(), stepwise.ui().pending());
    assert_eq!(mining(whole.ui()), mining(stepwise.ui()));
    assert_eq!(whole.phase(), stepwise.phase());
}

#[test]
fn end_to_end() {
    let a: u64 = 0xA;
    let source = || a;
    let mut c = controller();
    // The poll clock starts with the first iteration.
    assert!(!c.run(&source, &vec![1_000]));
    assert_eq!(mining(c.ui()), None);
    // One interval later the snapshot is polled, and the next step shows it.
    assert!(!c.run(&source, &vec![1_001, 1_001]));
    assert_eq!(mining(c.ui()), Some(a));
    c.key('q');
    assert!(c.run(&source, &vec![1_001, 1_002]));
    let mut ui = c.into_ui();
    assert!(!ui.step());
    assert!(!ui.is_running());
    assert_eq!(mining(&ui), Some(a));
}

#[test]
fn tick_now_reads_the_wall_clock() {
    let mut c = controller();
    c.set_poll_interval(0);
    let reads = Cell::new(0u32);
    let source = || {
        reads.set(reads.get() + 1);
        5u64
    };
    assert_eq!(c.tick_now(&source), Action::Sleep(100));
    assert_eq!(reads.get(), 1);
    assert_eq!(c.tick_now(&source), Action::Sleep(100));
    assert_eq!(mining(c.ui()), Some(5));
    c.key('q');
    assert_eq!(c.tick_now(&source), Action::Exit);
    assert_eq!(c.phase(), Phase::Terminated);
}

#[test]
fn tick_now_waits_for_the_interval() {
    let mut c = controller();
    c.set_poll_interval(3_600);
    let reads = Cell::new(0u32);
    let source = || {
        reads.set(reads.get() + 1);
        5u64
    };
    assert_eq!(c.tick_now(&source), Action::Sleep(100));
    assert_eq!(c.tick_now(&source), Action::Sleep(100));
    assert_eq!(reads.get(), 0);
}
