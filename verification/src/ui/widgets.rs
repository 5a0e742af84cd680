use vstd::prelude::*;

use crate::text::{
    align_left, align_right, dec, fixed_point, fmt_fixed, fmt_u64, fmt_u64_width, left_aligned,
    push_char, push_repeat, push_str, repeat_char,
};
use crate::ui::theme::{fg_style, section_title_style, Palette, TextStyle};

verus! {

/// A piece of text with its style.
pub struct StyledText {
    pub text: String,
    pub style: TextStyle,
}

/// What one gauge row shows: a bar filled to `fill_num / fill_den` of its
/// length (empty when `fill_den` is zero, full when the fraction exceeds
/// one), in `color`, with `value` written beside it in the same colour.
pub struct GaugeModel {
    pub fill_num: u64,
    pub fill_den: u64,
    pub color: Palette,
    pub value: String,
}

/// What one key/value row shows on its value side: `value` in bold `color`.
pub struct KvModel {
    pub value: String,
    pub color: Palette,
}

/// `n` right-aligned in `width` characters followed by `suffix`.
pub open spec fn number_text(n: nat, width: nat, suffix: Seq<char>) -> Seq<char> {
    align_right(dec(n), width) + suffix
}

/// Writes `n` right-aligned in `width` characters, then `suffix`.
pub fn fmt_number(n: u64, width: usize, suffix: &str) -> (r: String)
    ensures
        r@ == number_text(n as nat, width as nat, suffix@),
{
    let mut s = fmt_u64_width(n, width);
    push_str(&mut s, suffix);
    s
}

/// The text of `s` fitted to `width` characters: padded with spaces when
/// shorter, kept when exactly `width` long, and cut to `width - 1`
/// characters followed by "…" when longer.
pub open spec fn spec_fixed_width(s: Seq<char>, width: nat) -> Seq<char> {
    if s.len() > width {
        s.take(if width >= 1 { width - 1 } else { 0 }).push('…')
    } else {
        align_left(s, width)
    }
}

/// Right-pads `s` with spaces so its display width is exactly `width`.
/// Truncates with "…" if too long.
pub fn fixed_width(s: &str, width: usize) -> (r: String)
    ensures
        r@ == spec_fixed_width(s@, width as nat),
{
    let len = s.unicode_len();
    if len > width {
        let keep = width.saturating_sub(1);
        let head = s.substring_char(0, keep);
        let mut t = String::new();
        push_str(&mut t, head);
        push_char(&mut t, '…');
        assert(t@ =~= spec_fixed_width(s@, width as nat));
        t
    } else {
        left_aligned(s, width)
    }
}

/// The result is exactly `width` characters long (when `width` is at least
/// one, or the text is not longer than `width`); text that fits is kept as
/// its prefix, longer text keeps its first `width - 1` characters; and fitting
/// a fitted text again changes nothing.
pub proof fn lemma_fixed_width_exact(s: Seq<char>, width: nat)
    requires
        width >= 1 || s.len() <= width,
    ensures
        spec_fixed_width(s, width).len() == width,
        s.len() <= width ==> spec_fixed_width(s, width).take(s.len() as int) == s,
        s.len() > width ==> spec_fixed_width(s, width).take(width - 1) == s.take(width - 1),
        spec_fixed_width(spec_fixed_width(s, width), width) == spec_fixed_width(s, width),
{
    let r = spec_fixed_width(s, width);
    if s.len() <= width {
        assert(r.take(s.len() as int) =~= s);
    } else {
        assert(r.take(width - 1) =~= s.take(width - 1));
    }
    assert(r.len() == width);
    assert(spec_fixed_width(r, width) =~= r);
}

/// "X.X GiB": `bytes / 2^30` with one decimal, rounded to the nearest, ties
/// to even.
pub open spec fn gib_text(bytes: u64) -> Seq<char> {
    fixed_point(bytes as nat, 1073741824, 1) + seq![' ', 'G', 'i', 'B']
}

pub open spec fn mib_text(bytes: u64) -> Seq<char> {
    dec(bytes as nat / 1048576) + seq![' ', 'M', 'i', 'B']
}

/// The GiB text always ends in a point, exactly one decimal digit and
/// " GiB", whatever the size: its columns line up.
pub proof fn lemma_gib_text_one_decimal(bytes: u64)
    ensures
        gib_text(bytes).len() >= 7,
        gib_text(bytes)[gib_text(bytes).len() - 6] == '.',
        gib_text(bytes).subrange(gib_text(bytes).len() - 4, gib_text(bytes).len() as int)
            == seq![' ', 'G', 'i', 'B'],
{
    reveal_with_fuel(crate::text::pow10, 2);
    let scaled = gib_tenths(bytes);
    assert(dec(scaled % 10).len() == 1);
    crate::text::lemma_dec_nonempty(scaled / 10);
    let t = gib_text(bytes);
    let frac = crate::text::zero_pad(dec(scaled % 10), 1);
    assert(frac.len() == 1);
    assert(t =~= dec(scaled / 10) + seq!['.'] + frac + seq![' ', 'G', 'i', 'B']);
    assert(t.subrange(t.len() - 4, t.len() as int) =~= seq![' ', 'G', 'i', 'B']);
}

/// The GiB text spells the size in tenths of a GiB: its whole part and its
/// one decimal read back as `gib_tenths(bytes)`, which is within half a
/// tenth of the exact size `bytes / 2^30`.
pub proof fn lemma_gib_text_value(bytes: u64)
    ensures
        crate::text::decimal_value(gib_text(bytes).take(gib_text(bytes).len() - 6)) * 10
            + crate::text::decimal_value(
            gib_text(bytes).subrange(gib_text(bytes).len() - 5, gib_text(bytes).len() - 4),
        ) == gib_tenths(bytes),
        2 * (gib_tenths(bytes) * 1073741824 - 10 * bytes) <= 1073741824,
        2 * (10 * bytes - gib_tenths(bytes) * 1073741824) <= 1073741824,
{
    reveal_with_fuel(crate::text::pow10, 2);
    let scaled = gib_tenths(bytes);
    crate::text::lemma_dec_spells(scaled / 10);
    crate::text::lemma_dec_spells(scaled % 10);
    let t = gib_text(bytes);
    let frac = crate::text::zero_pad(dec(scaled % 10), 1);
    assert(dec(scaled % 10).len() == 1);
    assert(frac =~= dec(scaled % 10));
    assert(t =~= dec(scaled / 10) + seq!['.'] + frac + seq![' ', 'G', 'i', 'B']);
    assert(t.take(t.len() - 6) =~= dec(scaled / 10));
    assert(t.subrange(t.len() - 5, t.len() - 4) =~= dec(scaled % 10));
    crate::text::lemma_round_half_even_nearest(bytes as nat * 10, 1073741824);
}

/// The MiB text spells the size in whole MiB, rounded down.
pub proof fn lemma_mib_text_value(bytes: u64)
    ensures
        mib_text(bytes).skip(mib_text(bytes).len() - 4) == seq![' ', 'M', 'i', 'B'],
        crate::text::decimal_value(mib_text(bytes).take(mib_text(bytes).len() - 4)) * 1048576
            <= bytes,
        bytes < (crate::text::decimal_value(mib_text(bytes).take(mib_text(bytes).len() - 4)) + 1)
            * 1048576,
{
    let q = bytes as nat / 1048576;
    crate::text::lemma_dec_spells(q);
    let t = mib_text(bytes);
    assert(t.take(t.len() - 4) =~= dec(q));
    assert(t.skip(t.len() - 4) =~= seq![' ', 'M', 'i', 'B']);
    vstd::arithmetic::div_mod::lemma_fundamental_div_mod(bytes as int, 1048576);
    vstd::arithmetic::div_mod::lemma_mod_bound(bytes as int, 1048576);
}

/// The size in GiB that `fmt_gib` shows, in tenths: `bytes / 2^30` rounded
/// to one decimal, ties to even.
pub open spec fn gib_tenths(bytes: u64) -> nat {
    crate::text::round_half_even(bytes as nat * 10, 1073741824)
}

/// The GiB text shows the number `gib_tenths(bytes) / 10`, and more bytes
/// never show as fewer GiB.
pub proof fn lemma_gib_monotone(a: u64, b: u64)
    requires
        a <= b,
    ensures
        gib_text(a) == dec(gib_tenths(a) / 10) + seq!['.'] + crate::text::zero_pad(
            dec(gib_tenths(a) % 10),
            1,
        ) + seq![' ', 'G', 'i', 'B'],
        gib_tenths(a) <= gib_tenths(b),
{
    reveal_with_fuel(crate::text::pow10, 2);
    crate::text::lemma_round_half_even_monotone(a as nat * 10, b as nat * 10, 1073741824);
}

/// Formats bytes as "X.X GiB" always (for consistent column widths).
pub fn fmt_gib(bytes: u64) -> (r: String)
    ensures
        r@ == gib_text(bytes),
{
    proof {
        reveal_with_fuel(crate::text::pow10, 2);
    }
    let mut s = fmt_fixed(bytes, 1073741824, 1);
    push_char(&mut s, ' ');
    push_char(&mut s, 'G');
    push_char(&mut s, 'i');
    push_char(&mut s, 'B');
    assert(s@ =~= gib_text(bytes));
    s
}

/// Formats bytes as "X MiB" always.
pub fn fmt_mib(bytes: u64) -> (r: String)
    ensures
        r@ == mib_text(bytes),
{
    let mut s = fmt_u64(bytes / (1024 * 1024));
    push_char(&mut s, ' ');
    push_char(&mut s, 'M');
    push_char(&mut s, 'i');
    push_char(&mut s, 'B');
    assert(s@ =~= mib_text(bytes));
    s
}

/// Whether a gauge row has room to be drawn: a non-empty row at least as
/// wide as the label and value columns plus three cells for the bar.
pub fn gauge_row_fits(area_height: u16, area_width: u16, label_width: u16, value_width: u16) -> (r:
    bool)
    requires
        label_width + value_width + 3 <= u16::MAX,
    ensures
        r == (area_height != 0 && area_width >= label_width + value_width + 3),
{
    !(area_height == 0 || area_width < label_width + value_width + 3)
}

/// The pieces of a divider line: sixty "─" without a title, otherwise
/// "──", the title between spaces in the section-title style, and "──".
pub open spec fn divider_pieces(title: Seq<char>) -> Seq<(Seq<char>, TextStyle)> {
    if title.len() == 0 {
        seq![(repeat_char('─', 60), fg_style(Palette::Border))]
    } else {
        seq![
            (seq!['─', '─'], fg_style(Palette::Border)),
            (seq![' '] + title + seq![' '], TextStyle { fg: Some(Palette::BorderBright), bg: None, bold: true }),
            (seq!['─', '─'], fg_style(Palette::Border)),
        ]
    }
}

pub open spec fn styled_view(v: Seq<StyledText>) -> Seq<(Seq<char>, TextStyle)> {
    v.map_values(|t: StyledText| (t.text@, t.style))
}

fn border_dashes(n: usize) -> (r: StyledText)
    ensures
        r.text@ == repeat_char('─', n as nat),
        r.style == fg_style(Palette::Border),
{
    let mut text = String::new();
    push_repeat(&mut text, '─', n);
    StyledText { text, style: TextStyle { fg: Some(Palette::Border), bg: None, bold: false } }
}

/// A horizontal divider line with an optional centred title.
pub fn section_divider(title: &str) -> (r: Vec<StyledText>)
    ensures
        styled_view(r@) == divider_pieces(title@),
{
    let mut pieces: Vec<StyledText> = Vec::new();
    if title.is_empty() {
        pieces.push(border_dashes(60));
    } else {
        pieces.push(border_dashes(2));
        let mut text = String::new();
        push_char(&mut text, ' ');
        push_str(&mut text, title);
        push_char(&mut text, ' ');
        assert(text@ =~= seq![' '] + title@ + seq![' ']);
        pieces.push(StyledText { text, style: section_title_style() });
        pieces.push(border_dashes(2));
        assert(repeat_char('─', 2) =~= seq!['─', '─']);
        assert(styled_view(pieces@)[0] == divider_pieces(title@)[0]);
        assert(styled_view(pieces@)[1] == divider_pieces(title@)[1]);
        assert(styled_view(pieces@)[2] == divider_pieces(title@)[2]);
    }
    assert(styled_view(pieces@) =~= divider_pieces(title@));
    pieces
}

} // verus!
