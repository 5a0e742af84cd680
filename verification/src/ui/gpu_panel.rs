use vstd::prelude::*;

use crate::metrics::GpuMetrics;
use crate::text::{align_right, dec, fmt_u64, push_char, push_str};
use crate::ui::theme::{spec_temp_color, spec_util_color, temp_color, util_color, Palette};
use crate::ui::widgets::{fmt_number, number_text, GaugeModel, KvModel};

verus! {

/// Rows the GPU panel needs inside its border to draw anything.
pub const GPU_PANEL_MIN_ROWS: u16 = 6;

/// Whether the inside of the GPU panel, `inner_height` rows high, has room
/// for its contents; with less the panel shows only its border.
pub fn gpu_panel_fits(inner_height: u16) -> (r: bool)
    ensures
        r == (inner_height >= GPU_PANEL_MIN_ROWS),
{
    inner_height >= GPU_PANEL_MIN_ROWS
}

/// Width of the label column of the GPU panel's rows.
pub const GPU_LABEL_W: u16 = 14;

/// Width of the value column of the GPU panel's gauges.
pub const GPU_VALUE_W: u16 = 9;

/// What the GPU panel shows, apart from the history sparkline.
pub struct GpuPanel {
    /// Colour of the temperature read-out.
    pub temp_color: Palette,
    /// Title text after " GPU ": "· {name} ".
    pub title_name: String,
    pub util: GaugeModel,
    pub mem_bw: GaugeModel,
    pub power: GaugeModel,
    pub gfx_clock: KvModel,
    pub mem_clock: KvModel,
    pub fan: KvModel,
}

/// A utilisation gauge for a whole-number percentage.
pub open spec fn pct_gauge_ok(g: GaugeModel, pct: u32) -> bool {
    &&& g.fill_num == pct
    &&& g.fill_den == 100
    &&& g.color == spec_util_color(pct)
    &&& g.value@ == number_text(pct as nat, 3, seq!['%'])
}

pub open spec fn mhz_suffix() -> Seq<char> {
    seq![' ', 'M', 'H', 'z']
}

/// The GPU panel for the metrics `gpu`, with the power draw at `power_pct`
/// percent of the power limit.
pub open spec fn gpu_panel_ok(p: GpuPanel, gpu: GpuMetrics, power_pct: u32) -> bool {
    &&& p.temp_color == spec_temp_color(gpu.temperature_c)
    &&& p.title_name@ == seq!['·', ' '] + gpu.name@ + seq![' ']
    &&& pct_gauge_ok(p.util, gpu.utilization_gpu_pct)
    &&& pct_gauge_ok(p.mem_bw, gpu.utilization_mem_pct)
    &&& p.power.fill_num == gpu.power_draw_mw / 1000
    &&& p.power.fill_den == gpu.power_limit_mw / 1000
    &&& p.power.color == spec_util_color(power_pct)
    &&& p.power.value@ == number_text((gpu.power_draw_mw / 1000) as nat, 3, seq!['W'])
    &&& p.gfx_clock.value@ == number_text(gpu.clock_graphics_mhz as nat, 4, mhz_suffix())
    &&& p.gfx_clock.color == Palette::NeonBlue
    &&& p.mem_clock.value@ == number_text(gpu.clock_memory_mhz as nat, 4, mhz_suffix())
    &&& p.mem_clock.color == Palette::NeonBlue
    &&& p.fan.value@ == number_text(gpu.fan_speed_pct as nat, 3, seq!['%'])
    &&& p.fan.color == (if gpu.fan_speed_pct > 0 {
        Palette::NeonPurple
    } else {
        Palette::TextDim
    })
}

/// What the GPU panel shows for `gpu`: every gauge is filled with exactly
/// the figure its text shows (the GPU utilisation and the memory bandwidth
/// out of 100 %, the power draw out of the power limit, in whole watts) and
/// coloured by the band of its percentage; the title carries the GPU's name
/// and the temperature colour its band; the clock rows show the graphics and
/// memory clocks in MHz, and the fan row the fan speed, purple when the fan
/// turns.
pub proof fn lemma_gpu_panel_shows(p: GpuPanel, gpu: GpuMetrics, power_pct: u32)
    requires
        gpu_panel_ok(p, gpu, power_pct),
    ensures
        p.util.fill_num == gpu.utilization_gpu_pct,
        p.util.fill_den == 100,
        p.util.value@ == align_right(dec(p.util.fill_num as nat), 3) + seq!['%'],
        p.util.color == spec_util_color(gpu.utilization_gpu_pct),
        p.mem_bw.fill_num == gpu.utilization_mem_pct,
        p.mem_bw.fill_den == 100,
        p.mem_bw.value@ == align_right(dec(p.mem_bw.fill_num as nat), 3) + seq!['%'],
        p.mem_bw.color == spec_util_color(gpu.utilization_mem_pct),
        1000 * p.power.fill_num <= gpu.power_draw_mw < 1000 * (p.power.fill_num + 1),
        1000 * p.power.fill_den <= gpu.power_limit_mw < 1000 * (p.power.fill_den + 1),
        p.power.value@ == align_right(dec(p.power.fill_num as nat), 3) + seq!['W'],
        p.power.color == spec_util_color(power_pct),
        p.temp_color == spec_temp_color(gpu.temperature_c),
        p.title_name@.subrange(2, p.title_name@.len() - 1) == gpu.name@,
        p.gfx_clock.value@ == align_right(dec(gpu.clock_graphics_mhz as nat), 4) + mhz_suffix(),
        p.mem_clock.value@ == align_right(dec(gpu.clock_memory_mhz as nat), 4) + mhz_suffix(),
        p.fan.value@ == align_right(dec(gpu.fan_speed_pct as nat), 3) + seq!['%'],
        p.fan.color == Palette::NeonPurple <==> gpu.fan_speed_pct > 0,
{
    assert(p.title_name@.subrange(2, p.title_name@.len() - 1) =~= gpu.name@);
}

fn pct_gauge(pct: u32) -> (g: GaugeModel)
    ensures
        pct_gauge_ok(g, pct),
{
    proof {
        reveal_strlit("%");
        assert("%"@ =~= seq!['%']);
    }
    GaugeModel {
        fill_num: pct as u64,
        fill_den: 100,
        color: util_color(pct),
        value: fmt_number(pct as u64, 3, "%"),
    }
}

/// Computes what the GPU panel shows for `gpu`. `power_pct` is the power
/// draw as a percentage of the power limit (both in whole watts), which
/// colours the power gauge; the caller computes it.
pub fn gpu_panel(gpu: &GpuMetrics, power_pct: u32) -> (p: GpuPanel)
    ensures
        gpu_panel_ok(p, *gpu, power_pct),
{
    proof {
        reveal_strlit("W");
        reveal_strlit(" MHz");
        reveal_strlit("%");
        assert("W"@ =~= seq!['W']);
        assert(" MHz"@ =~= mhz_suffix());
        assert("%"@ =~= seq!['%']);
    }
    let mut title_name = String::new();
    push_char(&mut title_name, '·');
    push_char(&mut title_name, ' ');
    push_str(&mut title_name, gpu.name.as_str());
    push_char(&mut title_name, ' ');
    assert(title_name@ =~= seq!['·', ' '] + gpu.name@ + seq![' ']);

    let power_w = gpu.power_draw_mw / 1000;
    let limit_w = gpu.power_limit_mw / 1000;
    let power = GaugeModel {
        fill_num: power_w as u64,
        fill_den: limit_w as u64,
        color: util_color(power_pct),
        value: fmt_number(power_w as u64, 3, "W"),
    };
    let fan_color = if gpu.fan_speed_pct > 0 {
        Palette::NeonPurple
    } else {
        Palette::TextDim
    };
    GpuPanel {
        temp_color: temp_color(gpu.temperature_c),
        title_name,
        util: pct_gauge(gpu.utilization_gpu_pct),
        mem_bw: pct_gauge(gpu.utilization_mem_pct),
        power,
        gfx_clock: KvModel {
            value: fmt_number(gpu.clock_graphics_mhz as u64, 4, " MHz"),
            color: Palette::NeonBlue,
        },
        mem_clock: KvModel {
            value: fmt_number(gpu.clock_memory_mhz as u64, 4, " MHz"),
            color: Palette::NeonBlue,
        },
        fan: KvModel { value: fmt_number(gpu.fan_speed_pct as u64, 3, "%"), color: fan_color },
    }
}

/// How the temperature is shown in its area.
pub enum TempDisplay {
    /// No room for large digits: one line of text.
    Plain { text: String },
    /// Large digits `digits` in a column `digits_width` cells wide, and the
    /// unit written on row `unit_row` of the column to their right.
    Big { digits: String, digits_width: u16, unit_row: u16 },
}

pub open spec fn temp_display_ok(d: TempDisplay, y: u16, width: u16, height: u16, temp: u32) -> bool {
    if width < 10 || height < 4 {
        d matches TempDisplay::Plain { text } && text@ == seq![' ', ' '] + dec(temp as nat) + seq![
            '°',
            'C',
        ]
    } else {
        let digits_cols = 8 * dec(temp as nat).len();
        let room = (width - 6) as nat;
        &&& d matches TempDisplay::Big { digits, digits_width, unit_row }
        &&& digits@ == dec(temp as nat)
        &&& digits_width == (if digits_cols < room { digits_cols } else { room })
        &&& unit_row == y + height - 2
    }
}

/// How the temperature is shown: as plain text "  {temp}°C" exactly when the
/// area is narrower than ten columns or lower than four rows; otherwise as
/// large digits spelling the temperature, in a column eight cells per digit
/// wide but leaving at least six columns for the unit, which sits two rows
/// above the area's bottom edge.
pub proof fn lemma_temp_display_shows(d: TempDisplay, y: u16, width: u16, height: u16, temp: u32)
    requires
        temp_display_ok(d, y, width, height, temp),
    ensures
        d is Plain <==> (width < 10 || height < 4),
        d matches TempDisplay::Plain { text } ==> text@.subrange(2, text@.len() - 2) == dec(
            temp as nat,
        ) && text@.take(2) == seq![' ', ' '] && text@.skip(text@.len() - 2) == seq!['°', 'C'],
        d matches TempDisplay::Big { digits, digits_width, unit_row } ==> {
            &&& crate::text::decimal_value(digits@) == temp
            &&& digits_width <= 8 * digits@.len()
            &&& digits_width + 6 <= width
            &&& (digits_width == 8 * digits@.len() || digits_width + 6 == width)
            &&& unit_row + 2 == y + height
        },
{
    crate::text::lemma_dec_spells(temp as nat);
    if let TempDisplay::Plain { text } = d {
        assert(text@.subrange(2, text@.len() - 2) =~= dec(temp as nat));
        assert(text@.take(2) =~= seq![' ', ' ']);
        assert(text@.skip(text@.len() - 2) =~= seq!['°', 'C']);
    }
}

proof fn lemma_dec_len_bound_rec(n: nat, k: nat)
    requires
        n < crate::text::pow10(k),
    ensures
        1 <= dec(n).len() <= (if k == 0 { 1 } else { k }),
    decreases n,
{
    if n >= 10 {
        assert(k >= 2) by {
            if k == 0 {
            } else if k == 1 {
                reveal_with_fuel(crate::text::pow10, 2);
            }
        }
        assert(n / 10 < crate::text::pow10((k - 1) as nat)) by (nonlinear_arith)
            requires
                n < crate::text::pow10(k),
                crate::text::pow10(k) == 10 * crate::text::pow10((k - 1) as nat),
        ;
        lemma_dec_len_bound_rec(n / 10, (k - 1) as nat);
    }
}

/// Decides how the temperature `temp` is shown in the area at row `y` that
/// is `width` × `height` cells: large digits, each eight columns wide, with
/// the "°C" unit beside them two rows above the bottom; plain text when the
/// area is narrower than ten columns or lower than four rows.
pub fn temp_display(y: u16, width: u16, height: u16, temp: u32) -> (d: TempDisplay)
    requires
        width >= 10 && height >= 4 ==> y + height - 2 <= u16::MAX,
    ensures
        temp_display_ok(d, y, width, height, temp),
{
    if width < 10 || height < 4 {
        let mut text = String::new();
        push_char(&mut text, ' ');
        push_char(&mut text, ' ');
        let digits = fmt_u64(temp as u64);
        push_str(&mut text, digits.as_str());
        push_char(&mut text, '°');
        push_char(&mut text, 'C');
        assert(text@ =~= seq![' ', ' '] + dec(temp as nat) + seq!['°', 'C']);
        TempDisplay::Plain { text }
    } else {
        let digits = fmt_u64(temp as u64);
        proof {
            assert(u32::MAX < crate::text::pow10(10)) by {
                reveal_with_fuel(crate::text::pow10, 11);
            }
            lemma_dec_len_bound_rec(temp as nat, 10);
        }
        let n = digits.as_str().unicode_len();
        let cols: u16 = (n as u16) * 8;
        let room: u16 = width - 6;
        let digits_width = if cols < room {
            cols
        } else {
            room
        };
        TempDisplay::Big { digits, digits_width, unit_row: y + (height - 2) }
    }
}

} // verus!
