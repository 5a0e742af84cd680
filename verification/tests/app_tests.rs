use std::sync::Arc;

use gpu_observer::app::{App, AppState, Key};
use gpu_observer::metrics::Snapshot;

fn new_app() -> App {
    App::new(Arc::new(parking_lot::Mutex::new(Snapshot::default())))
}

#[test]
fn new_app_is_running_with_empty_history() {
    let app = new_app();
    assert!(app.is_running());
    assert_eq!(app.selected_process, 0);
    assert!(app.history.gpu_util.as_ordered_vec().is_empty());
}

#[test]
fn q_and_esc_quit() {
    let mut app = new_app();
    app.on_key(Key::Char('q'));
    assert!(!app.is_running());
    assert!(matches!(app.state, AppState::Quitting));

    let mut app = new_app();
    app.on_key(Key::Esc);
    assert!(!app.is_running());
}

#[test]
fn quitting_is_final() {
    let mut app = new_app();
    app.on_key(Key::Esc);
    app.on_key(Key::Char('j'));
    app.on_key(Key::Up);
    app.on_key(Key::Other);
    assert!(!app.is_running());
}

#[test]
fn selection_moves_and_saturates() {
    let mut app = new_app();
    app.on_key(Key::Up);
    assert_eq!(app.selected_process, 0);
    app.on_key(Key::Down);
    app.on_key(Key::Char('j'));
    assert_eq!(app.selected_process, 2);
    app.on_key(Key::Char('k'));
    assert_eq!(app.selected_process, 1);
    app.selected_process = usize::MAX;
    app.on_key(Key::Down);
    assert_eq!(app.selected_process, usize::MAX);
}

#[test]
fn down_up_roundtrip() {
    let mut app = new_app();
    app.selected_process = 41;
    app.on_key(Key::Down);
    app.on_key(Key::Up);
    assert_eq!(app.selected_process, 41);
}

#[test]
fn other_keys_change_nothing() {
    let mut app = new_app();
    app.selected_process = 5;
    app.on_key(Key::Char('x'));
    app.on_key(Key::Other);
    assert!(app.is_running());
    assert_eq!(app.selected_process, 5);
}

#[test]
fn tick_reads_shared_snapshot() {
    let shared = Arc::new(parking_lot::Mutex::new(Snapshot::default()));
    let mut app = App::new(shared.clone());
    {
        let mut s = shared.lock();
        s.gpu.utilization_gpu_pct = 88;
        s.cpu.global_utilization_pct_x100 = 1_250;
    }
    app.tick();
    shared.lock().gpu.utilization_gpu_pct = 12;
    app.tick();
    assert_eq!(app.history.gpu_util.as_ordered_vec(), vec![88, 12]);
    assert_eq!(app.history.cpu_util.as_ordered_vec(), vec![12, 12]);
}

#[test]
fn tick_scales_largest_ram_figure() {
    let shared = Arc::new(parking_lot::Mutex::new(Snapshot::default()));
    let mut app = App::new(shared.clone());
    shared.lock().ram.used_bytes = u64::MAX;
    app.tick();
    assert_eq!(app.history.ram_used_gib_x10.as_ordered_vec(), vec![171_798_691_839]);
    assert_eq!(app.history.gpu_util.as_ordered_vec(), vec![0]);
}

#[test]
fn ctrl_c_stops_at_once() {
    let mut app = new_app();
    app.selected_process = 3;
    assert!(app.on_key_event(Key::Char('c'), true));
    assert!(app.is_running());
    assert_eq!(app.selected_process, 3);
}

#[test]
fn plain_keys_go_through_on_key() {
    let mut app = new_app();
    assert!(!app.on_key_event(Key::Char('c'), false));
    assert!(!app.on_key_event(Key::Char('j'), true));
    assert_eq!(app.selected_process, 1);
    assert!(!app.on_key_event(Key::Char('q'), false));
    assert!(!app.is_running());
}
