use mugle_tui::engine::{RenderEngine, DASHBOARD_FPS};

#[test]
fn a_new_engine_runs_and_has_drawn_nothing() {
    let e = RenderEngine::new();
    assert!(e.is_running());
    assert_eq!(e.frames(), 0);
    assert_eq!(e.fps(), 0);
}

#[test]
fn the_dashboard_asks_for_four_frames_a_second() {
    assert_eq!(DASHBOARD_FPS, 4);
    let mut e = RenderEngine::new();
    e.set_fps(DASHBOARD_FPS);
    assert_eq!(e.fps(), 4);
    assert!(e.is_running());
    assert_eq!(e.frames(), 0);
}

#[test]
fn each_step_counts_one_frame() {
    let mut e = RenderEngine::new();
    for n in 1..=10u64 {
        e.step();
        assert_eq!(e.frames(), n);
    }
    assert!(e.is_running());
}

#[test]
fn quit_halts_the_engine_for_good() {
    let mut e = RenderEngine::new();
    e.step();
    e.quit();
    assert!(!e.is_running());
    e.quit();
    assert!(!e.is_running());
    assert_eq!(e.frames(), 1);
}
