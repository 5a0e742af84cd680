use vstd::prelude::*;

use crate::metrics::{GpuMetrics, RamMetrics};
use crate::text::{align_right, dec};
use crate::ui::theme::{spec_util_color, util_color, Palette};
use crate::ui::widgets::{fmt_gib, fmt_number, gib_text, number_text, GaugeModel, KvModel};

verus! {

/// Rows the memory panel needs inside its border to draw anything.
pub const MEM_PANEL_MIN_ROWS: u16 = 8;

/// Whether the inside of the memory panel, `inner_height` rows high, has room
/// for its contents; with less the panel shows only its border.
pub fn mem_panel_fits(inner_height: u16) -> (r: bool)
    ensures
        r == (inner_height >= MEM_PANEL_MIN_ROWS),
{
    inner_height >= MEM_PANEL_MIN_ROWS
}

/// Width of the label column of the memory panel's rows.
pub const MEM_LABEL_W: u16 = 14;

/// Width of the value column of the memory panel's gauges.
pub const MEM_VALUE_W: u16 = 5;

/// What the memory panel shows, apart from the VRAM history sparkline data.
pub struct MemPanel {
    pub vram_gauge: GaugeModel,
    pub vram_used: KvModel,
    pub vram_free: KvModel,
    pub vram_total: KvModel,
    /// Top of the scale of the VRAM sparkline, in MiB.
    pub vram_history_max: u64,
    pub ram_gauge: GaugeModel,
    pub ram_used: KvModel,
    pub ram_available: KvModel,
    pub ram_cached: KvModel,
    pub ram_free: KvModel,
}

/// A gauge of `used` out of `total` bytes, coloured by and labelled with the
/// percentage `pct`.
pub open spec fn usage_gauge_ok(g: GaugeModel, used: u64, total: u64, pct: u32) -> bool {
    &&& g.fill_num == used
    &&& g.fill_den == total
    &&& g.color == spec_util_color(pct)
    &&& g.value@ == number_text(pct as nat, 3, seq!['%'])
}

pub open spec fn gib_row_ok(k: KvModel, bytes: u64, color: Palette) -> bool {
    &&& k.value@ == gib_text(bytes)
    &&& k.color == color
}

pub open spec fn mem_panel_ok(
    p: MemPanel,
    gpu: GpuMetrics,
    ram: RamMetrics,
    vram_pct: u32,
    ram_pct: u32,
) -> bool {
    let vram_color = spec_util_color(vram_pct);
    let ram_color = spec_util_color(ram_pct);
    &&& usage_gauge_ok(p.vram_gauge, gpu.vram_used_bytes, gpu.vram_total_bytes, vram_pct)
    &&& gib_row_ok(p.vram_used, gpu.vram_used_bytes, vram_color)
    &&& gib_row_ok(p.vram_free, gpu.vram_free_bytes, Palette::NeonGreen)
    &&& gib_row_ok(p.vram_total, gpu.vram_total_bytes, Palette::TextDim)
    &&& p.vram_history_max == (if gpu.vram_total_bytes / 1048576 >= 1 {
        gpu.vram_total_bytes / 1048576
    } else {
        1
    })
    &&& usage_gauge_ok(p.ram_gauge, ram.used_bytes, ram.total_bytes, ram_pct)
    &&& gib_row_ok(p.ram_used, ram.used_bytes, ram_color)
    &&& gib_row_ok(p.ram_available, ram.available_bytes, Palette::NeonGreen)
    &&& gib_row_ok(p.ram_cached, ram.cached_approx_bytes, Palette::NeonBlue)
    &&& gib_row_ok(p.ram_free, ram.free_bytes, Palette::TextDim)
}

/// What the memory panel shows: each gauge is filled with the used amount
/// out of the total and labelled and coloured by the percentage given for it;
/// each "Used" row shows in GiB the same amount that fills its gauge, in the
/// gauge's colour, and the "Total" row the amount the gauge is measured
/// against; the free, available and cached rows show their own figures; the
/// VRAM history is scaled to the total VRAM in MiB, and never to zero.
pub proof fn lemma_mem_panel_shows(
    p: MemPanel,
    gpu: GpuMetrics,
    ram: RamMetrics,
    vram_pct: u32,
    ram_pct: u32,
)
    requires
        mem_panel_ok(p, gpu, ram, vram_pct, ram_pct),
    ensures
        p.vram_gauge.fill_num == gpu.vram_used_bytes,
        p.vram_gauge.fill_den == gpu.vram_total_bytes,
        p.vram_gauge.value@ == align_right(dec(vram_pct as nat), 3) + seq!['%'],
        p.vram_gauge.color == spec_util_color(vram_pct),
        p.vram_used.value@ == gib_text(p.vram_gauge.fill_num),
        p.vram_used.color == p.vram_gauge.color,
        p.vram_total.value@ == gib_text(p.vram_gauge.fill_den),
        p.vram_free.value@ == gib_text(gpu.vram_free_bytes),
        p.ram_gauge.fill_num == ram.used_bytes,
        p.ram_gauge.fill_den == ram.total_bytes,
        p.ram_gauge.value@ == align_right(dec(ram_pct as nat), 3) + seq!['%'],
        p.ram_gauge.color == spec_util_color(ram_pct),
        p.ram_used.value@ == gib_text(p.ram_gauge.fill_num),
        p.ram_used.color == p.ram_gauge.color,
        p.ram_available.value@ == gib_text(ram.available_bytes),
        p.ram_cached.value@ == gib_text(ram.cached_approx_bytes),
        p.ram_free.value@ == gib_text(ram.free_bytes),
        p.vram_history_max >= 1,
        gpu.vram_total_bytes >= 1048576 ==> p.vram_history_max * 1048576 <= gpu.vram_total_bytes
            < (p.vram_history_max + 1) * 1048576,
{
}

fn usage_gauge(used: u64, total: u64, pct: u32) -> (g: GaugeModel)
    ensures
        usage_gauge_ok(g, used, total, pct),
{
    proof {
        reveal_strlit("%");
        assert("%"@ =~= seq!['%']);
    }
    GaugeModel {
        fill_num: used,
        fill_den: total,
        color: util_color(pct),
        value: fmt_number(pct as u64, 3, "%"),
    }
}

/// Computes what the memory panel shows for the VRAM figures of `gpu` and
/// the RAM figures of `ram`. `vram_pct` and `ram_pct` are the used shares of
/// VRAM and RAM in percent, which colour and label the two gauges; the
/// caller computes them.
pub fn mem_panel(gpu: &GpuMetrics, ram: &RamMetrics, vram_pct: u32, ram_pct: u32) -> (p: MemPanel)
    ensures
        mem_panel_ok(p, *gpu, *ram, vram_pct, ram_pct),
{
    let vram_gauge = usage_gauge(gpu.vram_used_bytes, gpu.vram_total_bytes, vram_pct);
    let vram_color = vram_gauge.color;
    let ram_gauge = usage_gauge(ram.used_bytes, ram.total_bytes, ram_pct);
    let ram_color = ram_gauge.color;
    let total_mib = gpu.vram_total_bytes / (1024 * 1024);
    MemPanel {
        vram_gauge,
        vram_used: KvModel { value: fmt_gib(gpu.vram_used_bytes), color: vram_color },
        vram_free: KvModel { value: fmt_gib(gpu.vram_free_bytes), color: Palette::NeonGreen },
        vram_total: KvModel { value: fmt_gib(gpu.vram_total_bytes), color: Palette::TextDim },
        vram_history_max: if total_mib >= 1 {
            total_mib
        } else {
            1
        },
        ram_gauge,
        ram_used: KvModel { value: fmt_gib(ram.used_bytes), color: ram_color },
        ram_available: KvModel { value: fmt_gib(ram.available_bytes), color: Palette::NeonGreen },
        ram_cached: KvModel { value: fmt_gib(ram.cached_approx_bytes), color: Palette::NeonBlue },
        ram_free: KvModel { value: fmt_gib(ram.free_bytes), color: Palette::TextDim },
    }
}

} // verus!
