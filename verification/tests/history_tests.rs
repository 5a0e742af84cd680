use gpu_observer::history::{History, RingBuffer, HISTORY_LEN};
use gpu_observer::metrics::Snapshot;

#[test]
fn new_buffer_is_empty() {
    let rb = RingBuffer::new();
    assert_eq!(rb.as_ordered_vec(), Vec::<u64>::new());
}

#[test]
fn push_keeps_order_before_wrap() {
    let mut rb = RingBuffer::new();
    rb.push(3);
    rb.push(1);
    rb.push(2);
    assert_eq!(rb.as_ordered_vec(), vec![3, 1, 2]);
}

#[test]
fn exactly_full_buffer_holds_everything() {
    let mut rb = RingBuffer::new();
    for i in 0..HISTORY_LEN as u64 {
        rb.push(i);
    }
    let v = rb.as_ordered_vec();
    assert_eq!(v.len(), HISTORY_LEN);
    assert_eq!(v, (0..HISTORY_LEN as u64).collect::<Vec<u64>>());
}

#[test]
fn wrapped_buffer_keeps_latest_window() {
    let mut rb = RingBuffer::new();
    for i in 0..(HISTORY_LEN as u64 + 5) {
        rb.push(i * 10);
    }
    let v = rb.as_ordered_vec();
    assert_eq!(v.len(), HISTORY_LEN);
    assert_eq!(v[0], 50);
    assert_eq!(*v.last().unwrap(), (HISTORY_LEN as u64 + 4) * 10);
    let expected: Vec<u64> = (5..(HISTORY_LEN as u64 + 5)).map(|i| i * 10).collect();
    assert_eq!(v, expected);
}

#[test]
fn many_wraps_keep_latest_window() {
    let mut rb = RingBuffer::new();
    let total = 3 * HISTORY_LEN as u64 + 17;
    for i in 0..total {
        rb.push(i);
    }
    let expected: Vec<u64> = ((total - HISTORY_LEN as u64)..total).collect();
    assert_eq!(rb.as_ordered_vec(), expected);
}

#[test]
fn history_starts_empty() {
    let h = History::new();
    assert!(h.gpu_util.as_ordered_vec().is_empty());
    assert!(h.gpu_power_w.as_ordered_vec().is_empty());
    assert!(h.cpu_util.as_ordered_vec().is_empty());
    assert!(h.vram_used_mib.as_ordered_vec().is_empty());
    assert!(h.ram_used_gib_x10.as_ordered_vec().is_empty());
}

#[test]
fn history_update_converts_units() {
    let mut snap = Snapshot::default();
    snap.gpu.utilization_gpu_pct = 73;
    snap.gpu.power_draw_mw = 215_999;
    snap.cpu.global_utilization_pct_x100 = 4_299;
    snap.gpu.vram_used_bytes = 3 * 1024 * 1024 + 1_000;
    snap.ram.used_bytes = 16 * 1024 * 1024 * 1024 + 512 * 1024 * 1024;
    let mut h = History::new();
    h.update(&snap);
    assert_eq!(h.gpu_util.as_ordered_vec(), vec![73]);
    assert_eq!(h.gpu_power_w.as_ordered_vec(), vec![215]);
    assert_eq!(h.cpu_util.as_ordered_vec(), vec![42]);
    assert_eq!(h.vram_used_mib.as_ordered_vec(), vec![3]);
    assert_eq!(h.ram_used_gib_x10.as_ordered_vec(), vec![165]);
}

#[test]
fn history_update_appends_to_each_series() {
    let mut h = History::new();
    let mut snap = Snapshot::default();
    for i in 0..4u32 {
        snap.gpu.utilization_gpu_pct = i;
        h.update(&snap);
    }
    assert_eq!(h.gpu_util.as_ordered_vec(), vec![0, 1, 2, 3]);
    assert_eq!(h.cpu_util.as_ordered_vec(), vec![0, 0, 0, 0]);
}
