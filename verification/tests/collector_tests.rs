use gpu_observer::collector::gpu::{gpu_metrics, gpu_process, GpuReadings};
use gpu_observer::collector::memory::ram_metrics;

#[test]
fn ram_cached_approximation() {
    let r = ram_metrics(100, 60, 35, 30);
    assert_eq!(r.total_bytes, 100);
    assert_eq!(r.used_bytes, 60);
    assert_eq!(r.available_bytes, 35);
    assert_eq!(r.free_bytes, 30);
    assert_eq!(r.cached_approx_bytes, 10);
}

#[test]
fn ram_cached_saturates_at_zero() {
    assert_eq!(ram_metrics(100, 80, 10, 30).cached_approx_bytes, 0);
    assert_eq!(ram_metrics(100, 120, 10, 0).cached_approx_bytes, 0);
}

#[test]
fn process_name_is_trimmed() {
    let p = gpu_process(42, Some(1024), Some("  firefox\n".to_string()));
    assert_eq!(p.pid, 42);
    assert_eq!(p.name, "firefox");
    assert_eq!(p.vram_bytes, 1024);
}

#[test]
fn process_without_name_or_memory() {
    let p = gpu_process(4242, None, None);
    assert_eq!(p.name, "pid:4242");
    assert_eq!(p.vram_bytes, 0);
}

fn empty_readings() -> GpuReadings {
    GpuReadings {
        name: None,
        temperature_c: None,
        fan_speed_pct: None,
        utilization: None,
        clock_graphics_mhz: None,
        clock_sm_mhz: None,
        clock_memory_mhz: None,
        power_draw_mw: None,
        power_limit_mw: None,
        memory: None,
        processes: None,
    }
}

#[test]
fn missing_readings_become_defaults() {
    let m = gpu_metrics(empty_readings());
    assert_eq!(m.name, "Unknown GPU");
    assert_eq!(m.temperature_c, 0);
    assert_eq!(m.utilization_gpu_pct, 0);
    assert_eq!(m.utilization_mem_pct, 0);
    assert_eq!((m.vram_used_bytes, m.vram_free_bytes, m.vram_total_bytes), (0, 0, 0));
    assert!(m.processes.is_empty());
}

#[test]
fn present_readings_are_kept() {
    let mut r = empty_readings();
    r.name = Some("A100".to_string());
    r.temperature_c = Some(61);
    r.fan_speed_pct = Some(30);
    r.utilization = Some((77, 12));
    r.clock_graphics_mhz = Some(1410);
    r.clock_sm_mhz = Some(1400);
    r.clock_memory_mhz = Some(1215);
    r.power_draw_mw = Some(250_000);
    r.power_limit_mw = Some(400_000);
    r.memory = Some((1, 2, 3));
    r.processes = Some(vec![gpu_process(1, Some(5), None)]);
    let m = gpu_metrics(r);
    assert_eq!(m.name, "A100");
    assert_eq!(m.temperature_c, 61);
    assert_eq!(m.fan_speed_pct, 30);
    assert_eq!((m.utilization_gpu_pct, m.utilization_mem_pct), (77, 12));
    assert_eq!((m.clock_graphics_mhz, m.clock_sm_mhz, m.clock_memory_mhz), (1410, 1400, 1215));
    assert_eq!((m.power_draw_mw, m.power_limit_mw), (250_000, 400_000));
    assert_eq!((m.vram_used_bytes, m.vram_free_bytes, m.vram_total_bytes), (1, 2, 3));
    assert_eq!(m.processes.len(), 1);
    assert_eq!(m.processes[0].name, "pid:1");
}
