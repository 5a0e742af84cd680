use gpu_observer::metrics::{CpuMetrics, GpuMetrics, GpuProcess, RamMetrics};
use gpu_observer::ui::cpu_panel::{core_bars, cpu_panel, cpu_panel_fits};
use gpu_observer::ui::gpu_panel::{gpu_panel, gpu_panel_fits, temp_display, TempDisplay};
use gpu_observer::ui::mem_panel::{mem_panel, mem_panel_fits};
use gpu_observer::ui::process_panel::{process_panel, process_panel_fits};
use gpu_observer::ui::theme::Palette;

fn sample_gpu() -> GpuMetrics {
    let mut g = GpuMetrics::default();
    g.name = "RTX 4090".to_string();
    g.temperature_c = 72;
    g.fan_speed_pct = 0;
    g.utilization_gpu_pct = 97;
    g.utilization_mem_pct = 61;
    g.clock_graphics_mhz = 2520;
    g.clock_memory_mhz = 10501;
    g.power_draw_mw = 299_500;
    g.power_limit_mw = 450_000;
    g.vram_used_bytes = 12 * 1024 * 1024 * 1024;
    g.vram_free_bytes = 12 * 1024 * 1024 * 1024;
    g.vram_total_bytes = 24 * 1024 * 1024 * 1024;
    g
}

#[test]
fn gpu_panel_values() {
    // 299 W of 450 W is 66 %.
    let p = gpu_panel(&sample_gpu(), 66);
    assert_eq!(p.temp_color, Palette::NeonOrange);
    assert_eq!(p.title_name, "· RTX 4090 ");
    assert_eq!(p.util.value, " 97%");
    assert_eq!(p.util.color, Palette::NeonRed);
    assert_eq!((p.util.fill_num, p.util.fill_den), (97, 100));
    assert_eq!(p.mem_bw.value, " 61%");
    assert_eq!(p.mem_bw.color, Palette::NeonYellow);
    assert_eq!(p.power.value, "299W");
    assert_eq!((p.power.fill_num, p.power.fill_den), (299, 450));
    assert_eq!(p.power.color, Palette::NeonYellow);
    assert_eq!(p.gfx_clock.value, "2520 MHz");
    assert_eq!(p.mem_clock.value, "10501 MHz");
    assert_eq!(p.fan.value, "  0%");
    assert_eq!(p.fan.color, Palette::TextDim);
}

#[test]
fn gpu_panel_without_power_limit() {
    let mut g = sample_gpu();
    g.power_limit_mw = 999;
    g.fan_speed_pct = 40;
    let p = gpu_panel(&g, 0);
    assert_eq!(p.power.fill_den, 0);
    assert_eq!(p.power.color, Palette::NeonCyan);
    assert_eq!(p.fan.color, Palette::NeonPurple);
}

#[test]
fn temperature_display_modes() {
    match temp_display(3, 9, 4, 65) {
        TempDisplay::Plain { text } => assert_eq!(text, "  65°C"),
        _ => panic!("expected plain text"),
    }
    match temp_display(3, 40, 3, 65) {
        TempDisplay::Plain { text } => assert_eq!(text, "  65°C"),
        _ => panic!("expected plain text"),
    }
    match temp_display(3, 40, 4, 65) {
        TempDisplay::Big { digits, digits_width, unit_row } => {
            assert_eq!(digits, "65");
            assert_eq!(digits_width, 16);
            assert_eq!(unit_row, 5);
        }
        _ => panic!("expected big digits"),
    }
    match temp_display(0, 12, 4, 105) {
        TempDisplay::Big { digits, digits_width, .. } => {
            assert_eq!(digits, "105");
            assert_eq!(digits_width, 6);
        }
        _ => panic!("expected big digits"),
    }
}

#[test]
fn mem_panel_values() {
    let g = sample_gpu();
    let ram = RamMetrics {
        total_bytes: 32 * 1024 * 1024 * 1024,
        used_bytes: 30 * 1024 * 1024 * 1024,
        available_bytes: 2 * 1024 * 1024 * 1024,
        free_bytes: 1024 * 1024 * 1024,
        cached_approx_bytes: 1024 * 1024 * 1024,
    };
    let p = mem_panel(&g, &ram, 50, 93);
    assert_eq!(p.vram_gauge.value, " 50%");
    assert_eq!(p.vram_gauge.color, Palette::NeonCyan);
    assert_eq!(p.vram_used.value, "12.0 GiB");
    assert_eq!(p.vram_used.color, Palette::NeonCyan);
    assert_eq!(p.vram_free.color, Palette::NeonGreen);
    assert_eq!(p.vram_total.value, "24.0 GiB");
    assert_eq!(p.vram_history_max, 24 * 1024);
    assert_eq!(p.ram_gauge.value, " 93%");
    assert_eq!(p.ram_gauge.color, Palette::NeonOrange);
    assert_eq!(p.ram_used.color, Palette::NeonOrange);
    assert_eq!(p.ram_available.value, "2.0 GiB");
    assert_eq!(p.ram_cached.color, Palette::NeonBlue);
    assert_eq!(p.ram_free.value, "1.0 GiB");
}

#[test]
fn mem_panel_without_totals() {
    let p = mem_panel(&GpuMetrics::default(), &RamMetrics::default(), 0, 0);
    assert_eq!(p.vram_gauge.value, "  0%");
    assert_eq!(p.vram_gauge.fill_den, 0);
    assert_eq!(p.vram_history_max, 1);
    assert_eq!(p.ram_gauge.value, "  0%");
}

#[test]
fn cpu_panel_values() {
    let cpu = CpuMetrics {
        global_utilization_pct_x100: 4_567,
        per_core_utilization_pct_x100: vec![1_000, 9_999],
        per_core_frequency_mhz: vec![3000, 4001, 2000],
        brand: "AMD Ryzen 9 7950X 16-Core Processor".to_string(),
    };
    let p = cpu_panel(&cpu, 20);
    assert_eq!(p.brand, "AMD Ryzen 9 7950X 1…");
    assert_eq!(p.util.value, " 45.7%");
    assert_eq!(p.util.color, Palette::NeonCyan);
    assert_eq!((p.util.fill_num, p.util.fill_den), (4_567, 10_000));
    assert_eq!(p.avg_freq.value, " 3000 MHz");
    assert_eq!(p.avg_freq.color, Palette::NeonBlue);
    assert_eq!(p.max_freq.value, " 4001 MHz");
    assert_eq!(p.max_freq.color, Palette::NeonPurple);
}

#[test]
fn cpu_panel_without_cores() {
    let p = cpu_panel(&CpuMetrics::default(), 5);
    assert_eq!(p.brand, "     ");
    assert_eq!(p.util.value, "  0.0%");
    assert_eq!(p.avg_freq.value, "    0 MHz");
    assert_eq!(p.max_freq.value, "    0 MHz");
}

#[test]
fn core_bars_fit_width() {
    let util: Vec<u32> = (0..20).map(|i| i * 500).collect();
    let bars = core_bars(5, 7, &util);
    assert_eq!(bars.len(), 4);
    assert_eq!(bars[0].value, 0);
    assert_eq!(bars[3].value, 15);
    let all = core_bars(5, 100, &util);
    assert_eq!(all.len(), 20);
    assert_eq!(all[13].value, 65);
    assert_eq!(all[13].color, Palette::NeonYellow);
    assert_eq!(all[19].color, Palette::NeonRed);
    assert!(core_bars(0, 100, &util).is_empty());
    assert!(core_bars(5, 100, &Vec::new()).is_empty());
}

#[test]
fn process_panel_rows_and_selection() {
    let procs = vec![
        GpuProcess { pid: 1234, name: "Xorg".to_string(), vram_bytes: 200 * 1024 * 1024 },
        GpuProcess { pid: 99, name: "a".repeat(50), vram_bytes: 5 * 1024 * 1024 * 1024 },
    ];
    let p = process_panel(&procs, 7);
    assert_eq!(p.title_count, "(2) ");
    assert_eq!(p.rows.len(), 2);
    assert_eq!(p.rows[0].pid, "   1234");
    assert_eq!(p.rows[0].name, format!("{:<40}", "Xorg"));
    assert_eq!(p.rows[0].vram, "   200 MiB");
    assert_eq!(p.rows[1].name, format!("{}…", "a".repeat(39)));
    assert_eq!(p.rows[1].vram, "  5120 MiB");
    assert_eq!(p.selected, Some(1));
    assert_eq!(process_panel(&procs, 0).selected, Some(0));
}

#[test]
fn process_panel_empty() {
    let p = process_panel(&Vec::new(), 3);
    assert_eq!(p.title_count, "(0) ");
    assert!(p.rows.is_empty());
    assert_eq!(p.selected, None);
}

#[test]
fn percentage_passed_in_is_shown() {
    let p = mem_panel(&GpuMetrics::default(), &RamMetrics::default(), 28, 100);
    assert_eq!(p.vram_gauge.value, " 28%");
    assert_eq!(p.ram_gauge.value, "100%");
    assert_eq!(p.ram_gauge.color, Palette::NeonRed);
    assert_eq!(p.ram_used.color, Palette::NeonRed);
}

#[test]
fn panels_need_minimum_rows() {
    assert!(!gpu_panel_fits(5));
    assert!(gpu_panel_fits(6));
    assert!(!mem_panel_fits(7));
    assert!(mem_panel_fits(8));
    assert!(!cpu_panel_fits(3));
    assert!(cpu_panel_fits(4));
    assert!(!process_panel_fits(1));
    assert!(process_panel_fits(2));
}

#[test]
fn temperature_display_near_row_limit() {
    match temp_display(u16::MAX, 9, 4, 50) {
        TempDisplay::Plain { text } => assert_eq!(text, "  50°C"),
        _ => panic!("expected plain text"),
    }
    match temp_display(u16::MAX - 2, 20, 4, 50) {
        TempDisplay::Big { unit_row, .. } => assert_eq!(unit_row, u16::MAX),
        _ => panic!("expected big digits"),
    }
}
