use vstd::prelude::*;

use crate::metrics::CpuMetrics;
use crate::text::{align_right, dec, fixed_point, fmt_fixed, push_char, right_aligned};
use crate::ui::theme::{spec_util_color, util_color, Palette};
use crate::ui::widgets::{fixed_width, fmt_number, number_text, spec_fixed_width, GaugeModel, KvModel};

verus! {

/// Rows the CPU panel needs inside its border to draw anything.
pub const CPU_PANEL_MIN_ROWS: u16 = 4;

/// Whether the inside of the CPU panel, `inner_height` rows high, has room
/// for its contents; with less the panel shows only its border.
pub fn cpu_panel_fits(inner_height: u16) -> (r: bool)
    ensures
        r == (inner_height >= CPU_PANEL_MIN_ROWS),
{
    inner_height >= CPU_PANEL_MIN_ROWS
}

/// Width of the label column of the CPU panel's rows.
pub const CPU_LABEL_W: u16 = 14;

/// Width of the value column of the CPU panel's gauge.
pub const CPU_VALUE_W: u16 = 8;

/// Sum of the elements of `s`.
pub open spec fn seq_sum(s: Seq<u64>) -> int
    decreases s.len(),
{
    if s.len() == 0 {
        0
    } else {
        seq_sum(s.drop_last()) + s.last()
    }
}

/// Largest element of `s`, zero for the empty sequence.
pub open spec fn seq_max(s: Seq<u64>) -> u64
    decreases s.len(),
{
    if s.len() == 0 {
        0
    } else {
        let m = seq_max(s.drop_last());
        if s.last() > m {
            s.last()
        } else {
            m
        }
    }
}

/// Mean of `s` rounded down, zero for the empty sequence.
pub open spec fn seq_avg(s: Seq<u64>) -> int {
    if s.len() == 0 {
        0
    } else {
        seq_sum(s) / (s.len() as int)
    }
}

/// What the CPU panel shows, apart from the per-core bars and the history
/// sparkline data.
pub struct CpuPanel {
    /// The CPU model, fitted to the panel width.
    pub brand: String,
    /// Total utilisation; its colour also colours the history sparkline.
    pub util: GaugeModel,
    pub avg_freq: KvModel,
    pub max_freq: KvModel,
}

pub open spec fn mhz_suffix() -> Seq<char> {
    seq![' ', 'M', 'H', 'z']
}

/// The utilisation read-out: the percentage with one decimal, right-aligned
/// in five characters, then "%".
pub open spec fn util_text(pct_x100: u32) -> Seq<char> {
    align_right(fixed_point(pct_x100 as nat, 100, 1), 5) + seq!['%']
}

pub open spec fn cpu_panel_ok(p: CpuPanel, cpu: CpuMetrics, inner_width: u16) -> bool {
    &&& p.brand@ == spec_fixed_width(cpu.brand@, inner_width as nat)
    &&& p.util.fill_num == cpu.global_utilization_pct_x100
    &&& p.util.fill_den == 10000
    &&& p.util.color == spec_util_color(cpu.global_utilization_pct_x100 / 100)
    &&& p.util.value@ == util_text(cpu.global_utilization_pct_x100)
    &&& p.avg_freq.value@ == number_text(
        seq_avg(cpu.per_core_frequency_mhz@) as nat,
        5,
        mhz_suffix(),
    )
    &&& p.avg_freq.color == Palette::NeonBlue
    &&& p.max_freq.value@ == number_text(seq_max(cpu.per_core_frequency_mhz@) as nat, 5, mhz_suffix())
    &&& p.max_freq.color == Palette::NeonPurple
}

/// The largest element bounds every element and is one of them (zero for
/// no elements).
pub proof fn lemma_seq_max_is_maximum(s: Seq<u64>)
    ensures
        forall|i: int| 0 <= i < s.len() ==> #[trigger] s[i] <= seq_max(s),
        s.len() > 0 ==> exists|i: int| 0 <= i < s.len() && s[i] == seq_max(s),
        s.len() == 0 ==> seq_max(s) == 0,
    decreases s.len(),
{
    if s.len() > 0 {
        let t = s.drop_last();
        lemma_seq_max_is_maximum(t);
        assert forall|i: int| 0 <= i < s.len() implies #[trigger] s[i] <= seq_max(s) by {
            if i < s.len() - 1 {
                assert(s[i] == t[i]);
            }
        }
        if s.last() > seq_max(t) || t.len() == 0 {
            assert(s[s.len() - 1] == seq_max(s));
        } else {
            let j = choose|j: int| 0 <= j < t.len() && t[j] == seq_max(t);
            assert(s[j] == seq_max(s));
        }
    }
}

/// The average is the sum shared out evenly and rounded down: `len` times it
/// is at most the sum, and `len` times one more exceeds it.
pub proof fn lemma_seq_avg_is_mean(s: Seq<u64>)
    ensures
        s.len() == 0 ==> seq_avg(s) == 0,
        s.len() > 0 ==> seq_avg(s) * s.len() <= seq_sum(s) < (seq_avg(s) + 1) * s.len(),
{
    if s.len() > 0 {
        lemma_prefix_sum_bounded(s, 0);
        let n = s.len() as int;
        let t = seq_sum(s);
        vstd::arithmetic::div_mod::lemma_fundamental_div_mod(t, n);
        vstd::arithmetic::div_mod::lemma_mod_bound(t, n);
        assert(seq_avg(s) * n <= t < (seq_avg(s) + 1) * n) by (nonlinear_arith)
            requires
                seq_avg(s) == t / n,
                t == n * (t / n) + t % n,
                0 <= t % n < n,
        ;
    }
}

/// What the CPU panel shows: the total utilisation gauge is filled with the
/// load out of 100 % (hundredths out of 10000), coloured by the band of the
/// whole-percent load (cyan below 60 %, yellow below 80 %, orange below 95 %,
/// red from 95 %) and labelled with the load to one decimal; the brand is
/// fitted to the panel width; the frequency rows show the mean and the
/// largest core frequency.
pub proof fn lemma_cpu_panel_shows(p: CpuPanel, cpu: CpuMetrics, inner_width: u16)
    requires
        cpu_panel_ok(p, cpu, inner_width),
    ensures
        p.util.fill_num == cpu.global_utilization_pct_x100,
        p.util.fill_den == 10000,
        cpu.global_utilization_pct_x100 < 6000 ==> p.util.color == Palette::NeonCyan,
        6000 <= cpu.global_utilization_pct_x100 < 8000 ==> p.util.color == Palette::NeonYellow,
        8000 <= cpu.global_utilization_pct_x100 < 9500 ==> p.util.color == Palette::NeonOrange,
        9500 <= cpu.global_utilization_pct_x100 ==> p.util.color == Palette::NeonRed,
        p.util.value@ == align_right(fixed_point(p.util.fill_num as nat, 100, 1), 5) + seq!['%'],
        inner_width >= 1 || cpu.brand@.len() <= inner_width ==> p.brand@.len() == inner_width,
        cpu.brand@.len() <= inner_width ==> p.brand@.take(cpu.brand@.len() as int) == cpu.brand@,
        p.avg_freq.value@ == align_right(dec(seq_avg(cpu.per_core_frequency_mhz@) as nat), 5)
            + mhz_suffix(),
        p.max_freq.value@ == align_right(dec(seq_max(cpu.per_core_frequency_mhz@) as nat), 5)
            + mhz_suffix(),
        p.avg_freq.color == Palette::NeonBlue,
        p.max_freq.color == Palette::NeonPurple,
{
    if inner_width >= 1 || cpu.brand@.len() <= inner_width {
        crate::ui::widgets::lemma_fixed_width_exact(cpu.brand@, inner_width as nat);
    }
}

proof fn lemma_prefix_sum_bounded(s: Seq<u64>, i: int)
    requires
        0 <= i <= s.len(),
    ensures
        0 <= seq_sum(s.take(i)) <= seq_sum(s),
    decreases s.len(),
{
    if s.len() > 0 {
        if i == s.len() {
            assert(s.take(i) =~= s);
            lemma_prefix_sum_bounded(s.drop_last(), s.len() - 1);
            assert(s.drop_last().take(s.len() - 1) =~= s.drop_last());
        } else {
            lemma_prefix_sum_bounded(s.drop_last(), i);
            assert(s.drop_last().take(i) =~= s.take(i));
        }
    }
}

fn freq_stats(freqs: &Vec<u64>) -> (r: (u64, u64))
    requires
        seq_sum(freqs@) <= u64::MAX,
    ensures
        r.0 == seq_avg(freqs@),
        r.1 == seq_max(freqs@),
{
    let n = freqs.len();
    let mut sum: u64 = 0;
    let mut max: u64 = 0;
    let mut i: usize = 0;
    while i < n
        invariant
            n == freqs@.len(),
            i <= n,
            seq_sum(freqs@) <= u64::MAX,
            sum == seq_sum(freqs@.take(i as int)),
            max == seq_max(freqs@.take(i as int)),
        decreases n - i,
    {
        proof {
            assert(freqs@.take(i + 1).drop_last() =~= freqs@.take(i as int));
            lemma_prefix_sum_bounded(freqs@, i + 1);
        }
        sum = sum + freqs[i];
        if freqs[i] > max {
            max = freqs[i];
        }
        i = i + 1;
    }
    assert(freqs@.take(n as int) =~= freqs@);
    let avg = if n == 0 {
        0
    } else {
        sum / (n as u64)
    };
    (avg, max)
}

/// Computes what the CPU panel shows for `cpu` in a panel whose inside is
/// `inner_width` columns wide.
pub fn cpu_panel(cpu: &CpuMetrics, inner_width: u16) -> (p: CpuPanel)
    requires
        seq_sum(cpu.per_core_frequency_mhz@) <= u64::MAX,
    ensures
        cpu_panel_ok(p, *cpu, inner_width),
{
    proof {
        reveal_strlit(" MHz");
        assert(" MHz"@ =~= mhz_suffix());
        reveal_with_fuel(crate::text::pow10, 2);
    }
    let brand = fixed_width(cpu.brand.as_str(), inner_width as usize);
    let pct = cpu.global_utilization_pct_x100;
    let fixed = fmt_fixed(pct as u64, 100, 1);
    let mut value = right_aligned(fixed.as_str(), 5);
    push_char(&mut value, '%');
    assert(value@ =~= util_text(pct));
    let (avg, max) = freq_stats(&cpu.per_core_frequency_mhz);
    CpuPanel {
        brand,
        util: GaugeModel {
            fill_num: pct as u64,
            fill_den: 10000,
            color: util_color(pct / 100),
            value,
        },
        avg_freq: KvModel { value: fmt_number(avg, 5, " MHz"), color: Palette::NeonBlue },
        max_freq: KvModel { value: fmt_number(max, 5, " MHz"), color: Palette::NeonPurple },
    }
}

/// One bar of the per-core chart.
pub struct CoreBar {
    /// Height, in whole percent (rounded down).
    pub value: u64,
    pub color: Palette,
}

/// How many cores the chart shows in `width` columns: each bar takes one
/// column plus a one-column gap, so `(width + 1) / 2` bars fit.
pub open spec fn visible_cores(area_height: u16, area_width: u16, n_cores: nat) -> nat {
    if area_height == 0 || n_cores == 0 {
        0
    } else {
        let fit = ((area_width + 1) / 2) as nat;
        if fit < n_cores {
            fit
        } else {
            n_cores
        }
    }
}

pub open spec fn core_bar_ok(b: CoreBar, i: int, pct_x100: u32) -> bool {
    &&& b.value == pct_x100 / 100
    &&& b.color == spec_util_color(pct_x100 / 100)
}

/// The bars of the per-core chart in an area of `area_height` rows and
/// `area_width` columns: as many cores as fit, from the first. Bars carry no
/// labels, so that as many cores as possible fit.
pub fn core_bars(area_height: u16, area_width: u16, utilization_x100: &Vec<u32>) -> (bars: Vec<
    CoreBar,
>)
    ensures
        bars@.len() == visible_cores(area_height, area_width, utilization_x100@.len()),
        forall|i: int|
            0 <= i < bars@.len() ==> core_bar_ok(#[trigger] bars@[i], i, utilization_x100@[i]),
{
    let mut bars: Vec<CoreBar> = Vec::new();
    let n_cores = utilization_x100.len();
    if area_height == 0 || n_cores == 0 {
        return bars;
    }
    let fit: usize = (area_width as usize + 1) / 2;
    let visible = if fit < n_cores {
        fit
    } else {
        n_cores
    };
    let mut i: usize = 0;
    while i < visible
        invariant
            visible <= n_cores == utilization_x100@.len(),
            i <= visible,
            bars@.len() == i,
            forall|j: int|
                0 <= j < i ==> core_bar_ok(#[trigger] bars@[j], j, utilization_x100@[j]),
        decreases visible - i,
    {
        let pct = utilization_x100[i] / 100;
        bars.push(CoreBar { value: pct as u64, color: util_color(pct) });
        i = i + 1;
    }
    bars
}

/// The chart shows as many cores as fit, and no more: the visible bars and
/// the gaps between them fit in the width, no more bars are shown than there
/// are cores, one more bar would not fit whenever a core is left out, and a
/// area at least one column wide shows a bar when there is a core.
pub proof fn lemma_core_bars_fit(area_height: u16, area_width: u16, n_cores: nat)
    ensures
        visible_cores(area_height, area_width, n_cores) <= n_cores,
        visible_cores(area_height, area_width, n_cores) > 0 ==> 2 * visible_cores(
            area_height,
            area_width,
            n_cores,
        ) - 1 <= area_width,
        area_height > 0 && visible_cores(area_height, area_width, n_cores) < n_cores ==> 2 * (
        visible_cores(area_height, area_width, n_cores) + 1) - 1 > area_width,
        area_height > 0 && area_width > 0 && n_cores > 0 ==> visible_cores(
            area_height,
            area_width,
            n_cores,
        ) >= 1,
        area_height == 0 || n_cores == 0 ==> visible_cores(area_height, area_width, n_cores) == 0,
{
}

/// Each bar stands for its core: its height is the core's load in whole
/// percent and its colour the band of that load.
pub proof fn lemma_core_bar_shows(b: CoreBar, i: int, pct_x100: u32)
    requires
        core_bar_ok(b, i, pct_x100),
    ensures
        100 * b.value <= pct_x100 < 100 * (b.value + 1),
        b.color == spec_util_color(b.value as u32),
{
}

} // verus!
