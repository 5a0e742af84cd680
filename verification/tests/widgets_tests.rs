use gpu_observer::text::{fmt_fixed, fmt_u64, fmt_u64_width, left_aligned, right_aligned};
use gpu_observer::ui::theme::{dim_style, label_style, section_title_style, temp_color, util_color, Palette};
use gpu_observer::ui::widgets::{fixed_width, fmt_gib, fmt_mib, fmt_number, gauge_row_fits, section_divider};

#[test]
fn fixed_width_keeps_exact_text() {
    assert_eq!(fixed_width("abc", 3), "abc");
    assert_eq!(fixed_width("abcd", 4), "abcd");
    let once = fixed_width("ab", 5);
    assert_eq!(fixed_width(&once, 5), once);
}

#[test]
fn fixed_width_pads_short_text() {
    assert_eq!(fixed_width("abc", 6), "abc   ");
    assert_eq!(fixed_width("", 3), "   ");
}

#[test]
fn fixed_width_truncates_long_text() {
    assert_eq!(fixed_width("abcdef", 4), "abc…");
    assert_eq!(fixed_width("abcde", 4), "abc…");
    assert_eq!(fixed_width("héllo wörld", 5), "héll…");
}

#[test]
fn fixed_width_zero_width() {
    assert_eq!(fixed_width("abc", 0), "…");
    assert_eq!(fixed_width("", 0), "");
}

#[test]
fn fixed_width_length_is_width() {
    for w in 1..12usize {
        for s in ["", "a", "hello", "a much longer name than that"] {
            assert_eq!(fixed_width(s, w).chars().count(), w);
        }
    }
}

#[test]
fn fmt_gib_one_decimal() {
    assert_eq!(fmt_gib(0), "0.0 GiB");
    assert_eq!(fmt_gib(1024 * 1024 * 1024), "1.0 GiB");
    assert_eq!(fmt_gib(1_610_612_736), "1.5 GiB");
    assert_eq!(fmt_gib(16_000_000_000), "14.9 GiB");
    assert_eq!(fmt_gib(8_589_934_592 + 8_589_934_592 / 3), "10.7 GiB");
}

#[test]
fn fmt_gib_matches_one_decimal_float_formatting() {
    let gib = (1024u64 * 1024 * 1024) as f64;
    for bytes in [1u64, 268_435_456, 805_306_368, 53_687_091, 161_061_273, 1_000_000_000, 123_456_789_012, 34_359_738_368] {
        assert_eq!(fmt_gib(bytes), format!("{:.1} GiB", bytes as f64 / gib));
    }
}

#[test]
fn fmt_gib_ties_round_to_even() {
    // 0.25 GiB and 0.75 GiB are exact ties.
    assert_eq!(fmt_gib(268_435_456), "0.2 GiB");
    assert_eq!(fmt_gib(805_306_368), "0.8 GiB");
}

#[test]
fn fmt_gib_is_monotone() {
    let mut last = 0u64;
    for mib in (0..4096u64).step_by(37) {
        let text = fmt_gib(mib * 1024 * 1024);
        let tenths: u64 = text.trim_end_matches(" GiB").replace('.', "").parse().unwrap();
        assert!(tenths >= last);
        last = tenths;
    }
}

#[test]
fn fmt_mib_whole_mebibytes() {
    assert_eq!(fmt_mib(0), "0 MiB");
    assert_eq!(fmt_mib(1024 * 1024 - 1), "0 MiB");
    assert_eq!(fmt_mib(512 * 1024 * 1024 + 7), "512 MiB");
}

#[test]
fn number_formatting() {
    assert_eq!(fmt_u64(0), "0");
    assert_eq!(fmt_u64(u64::MAX), "18446744073709551615");
    assert_eq!(fmt_u64_width(7, 3), "  7");
    assert_eq!(fmt_u64_width(12345, 3), "12345");
    assert_eq!(fmt_number(42, 4, " MHz"), "  42 MHz");
    assert_eq!(right_aligned("ab", 5), "   ab");
    assert_eq!(left_aligned("ab", 5), "ab   ");
    assert_eq!(fmt_fixed(1234, 100, 1), "12.3");
    assert_eq!(fmt_fixed(1235, 100, 1), "12.4");
    assert_eq!(fmt_fixed(1225, 100, 1), "12.2");
    assert_eq!(fmt_fixed(5, 100, 1), "0.0");
    assert_eq!(fmt_fixed(10_000, 100, 1), "100.0");
}

#[test]
fn temp_color_bands() {
    assert_eq!(temp_color(0), Palette::NeonGreen);
    assert_eq!(temp_color(54), Palette::NeonGreen);
    assert_eq!(temp_color(55), Palette::NeonYellow);
    assert_eq!(temp_color(69), Palette::NeonYellow);
    assert_eq!(temp_color(70), Palette::NeonOrange);
    assert_eq!(temp_color(84), Palette::NeonOrange);
    assert_eq!(temp_color(85), Palette::NeonRed);
    assert_eq!(temp_color(u32::MAX), Palette::NeonRed);
}

#[test]
fn util_color_bands() {
    assert_eq!(util_color(0), Palette::NeonCyan);
    assert_eq!(util_color(59), Palette::NeonCyan);
    assert_eq!(util_color(60), Palette::NeonYellow);
    assert_eq!(util_color(79), Palette::NeonYellow);
    assert_eq!(util_color(80), Palette::NeonOrange);
    assert_eq!(util_color(94), Palette::NeonOrange);
    assert_eq!(util_color(95), Palette::NeonRed);
    assert_eq!(util_color(250), Palette::NeonRed);
}

#[test]
fn colors_are_monotone() {
    fn rank(p: Palette) -> u8 {
        match p {
            Palette::NeonYellow => 1,
            Palette::NeonOrange => 2,
            Palette::NeonRed => 3,
            _ => 0,
        }
    }
    for a in 0..120u32 {
        assert!(rank(temp_color(a)) <= rank(temp_color(a + 1)));
        assert!(rank(util_color(a)) <= rank(util_color(a + 1)));
    }
}

#[test]
fn palette_rgb_values() {
    assert_eq!(Palette::NeonCyan.rgb(), (0, 230, 210));
    assert_eq!(Palette::NeonRed.rgb(), (240, 50, 50));
    assert_eq!(Palette::GaugeEmpty.rgb(), (35, 35, 50));
}

#[test]
fn styles() {
    assert_eq!(label_style().fg, Some(Palette::TextDim));
    assert!(!label_style().bold);
    assert_eq!(section_title_style().fg, Some(Palette::BorderBright));
    assert!(section_title_style().bold);
    assert_eq!(dim_style().fg, Some(Palette::TextMuted));
}

#[test]
fn gauge_row_room() {
    assert!(gauge_row_fits(1, 26, 14, 9));
    assert!(!gauge_row_fits(1, 25, 14, 9));
    assert!(!gauge_row_fits(0, 100, 14, 9));
}

#[test]
fn divider_pieces() {
    let plain = section_divider("");
    assert_eq!(plain.len(), 1);
    assert_eq!(plain[0].text, "─".repeat(60));
    assert_eq!(plain[0].style.fg, Some(Palette::Border));

    let titled = section_divider("cores");
    assert_eq!(titled.len(), 3);
    assert_eq!(titled[0].text, "──");
    assert_eq!(titled[1].text, " cores ");
    assert!(titled[1].style.bold);
    assert_eq!(titled[2].text, "──");
}
