use vstd::prelude::*;

use crate::metrics::GpuProcess;
use crate::text::{align_right, dec, fmt_u64, fmt_u64_width, push_char, push_str, right_aligned};
use crate::ui::widgets::{fixed_width, fmt_mib, mib_text, spec_fixed_width};

verus! {

/// Rows the process panel needs inside its border to draw anything.
pub const PROCESS_PANEL_MIN_ROWS: u16 = 2;

/// Whether the inside of the process panel, `inner_height` rows high, has room
/// for its contents; with less the panel shows only its border.
pub fn process_panel_fits(inner_height: u16) -> (r: bool)
    ensures
        r == (inner_height >= PROCESS_PANEL_MIN_ROWS),
{
    inner_height >= PROCESS_PANEL_MIN_ROWS
}

/// Width of the PID column.
pub const COL_PID: u16 = 7;

/// Width of the VRAM column.
pub const COL_VRAM: u16 = 10;

/// Characters of a process name shown in the name column.
pub const NAME_CHARS: usize = 40;

/// One row of the process table.
pub struct ProcessRow {
    pub pid: String,
    pub name: String,
    pub vram: String,
}

/// What the process panel shows.
pub struct ProcessPanel {
    /// Title text after " GPU PROCESSES ": "({count}) ".
    pub title_count: String,
    /// One row per process, in order; empty when there is none (the panel then
    /// shows a placeholder row).
    pub rows: Vec<ProcessRow>,
    /// The highlighted row, if any.
    pub selected: Option<usize>,
}

pub open spec fn process_row_ok(r: ProcessRow, p: GpuProcess) -> bool {
    &&& r.pid@ == align_right(dec(p.pid as nat), COL_PID as nat)
    &&& r.name@ == spec_fixed_width(p.name@, NAME_CHARS as nat)
    &&& r.vram@ == align_right(mib_text(p.vram_bytes), COL_VRAM as nat)
}

/// The highlighted row for the selection `selected` among `n` rows: the
/// selection, kept to the last row; none when there are no rows.
pub open spec fn highlighted_row(selected: usize, n: nat) -> Option<usize> {
    if n == 0 {
        None
    } else if selected < n {
        Some(selected)
    } else {
        Some((n - 1) as usize)
    }
}

fn process_row(p: &GpuProcess) -> (r: ProcessRow)
    ensures
        process_row_ok(r, *p),
{
    let mib = fmt_mib(p.vram_bytes);
    ProcessRow {
        pid: fmt_u64_width(p.pid as u64, COL_PID as usize),
        name: fixed_width(p.name.as_str(), NAME_CHARS),
        vram: right_aligned(mib.as_str(), COL_VRAM as usize),
    }
}

/// The process panel for `processes` with row `selected_process` selected.
pub open spec fn process_panel_ok(
    panel: ProcessPanel,
    processes: Seq<GpuProcess>,
    selected_process: usize,
) -> bool {
    &&& panel.title_count@ == seq!['('] + dec(processes.len()) + seq![')', ' ']
    &&& panel.rows@.len() == processes.len()
    &&& forall|i: int|
        0 <= i < processes.len() ==> process_row_ok(#[trigger] panel.rows@[i], processes[i])
    &&& panel.selected == highlighted_row(selected_process, processes.len())
}

/// Computes what the process panel shows for `processes` with row
/// `selected_process` selected.
pub fn process_panel(processes: &Vec<GpuProcess>, selected_process: usize) -> (panel: ProcessPanel)
    ensures
        process_panel_ok(panel, processes@, selected_process),
{
    let n = processes.len();
    let mut title_count = String::new();
    push_char(&mut title_count, '(');
    let count = fmt_u64(n as u64);
    push_str(&mut title_count, count.as_str());
    push_char(&mut title_count, ')');
    push_char(&mut title_count, ' ');
    assert(title_count@ =~= seq!['('] + dec(processes@.len()) + seq![')', ' ']);

    let mut rows: Vec<ProcessRow> = Vec::new();
    let mut i: usize = 0;
    while i < n
        invariant
            n == processes@.len(),
            i <= n,
            rows@.len() == i,
            forall|j: int| 0 <= j < i ==> process_row_ok(#[trigger] rows@[j], processes@[j]),
        decreases n - i,
    {
        rows.push(process_row(&processes[i]));
        i = i + 1;
    }
    let selected = if n == 0 {
        None
    } else if selected_process < n {
        Some(selected_process)
    } else {
        Some(n - 1)
    };
    ProcessPanel { title_count, rows, selected }
}

/// The highlight always falls on an existing row, and there is one exactly
/// when there are rows.
pub proof fn lemma_highlight_in_range(selected: usize, n: nat)
    requires
        n <= usize::MAX,
    ensures
        highlighted_row(selected, n) is None <==> n == 0,
        highlighted_row(selected, n) matches Some(i) ==> i < n,
{
}

/// What the process table shows: one row per process, in order, each with
/// its pid right-aligned in the PID column, its name fitted to the name
/// column and its VRAM in whole MiB right-aligned in the VRAM column; the
/// count of processes in the title; and the highlight on the selected row,
/// or on the last row when the selection lies past it (never elsewhere), and
/// no highlight when there are no rows.
pub proof fn lemma_process_panel_shows(
    panel: ProcessPanel,
    processes: Seq<GpuProcess>,
    selected_process: usize,
)
    requires
        process_panel_ok(panel, processes, selected_process),
        processes.len() <= usize::MAX,
    ensures
        panel.rows@.len() == processes.len(),
        processes.len() == 0 <==> panel.selected is None,
        selected_process < processes.len() ==> panel.selected == Some(selected_process),
        processes.len() > 0 && selected_process >= processes.len() ==> panel.selected == Some(
            (processes.len() - 1) as usize,
        ),
        panel.title_count@ == seq!['('] + dec(processes.len()) + seq![')', ' '],
        forall|i: int|
            0 <= i < processes.len() ==> {
                &&& (#[trigger] panel.rows@[i]).pid@ == align_right(
                    dec(processes[i].pid as nat),
                    COL_PID as nat,
                )
                &&& panel.rows@[i].name@ == spec_fixed_width(processes[i].name@, NAME_CHARS as nat)
                &&& panel.rows@[i].name@.len() == NAME_CHARS
                &&& panel.rows@[i].vram@ == align_right(
                    dec(processes[i].vram_bytes as nat / 1048576) + seq![' ', 'M', 'i', 'B'],
                    COL_VRAM as nat,
                )
            },
{
    assert forall|i: int| 0 <= i < processes.len() implies (#[trigger] panel.rows@[i]).name@.len()
        == NAME_CHARS by {
        crate::ui::widgets::lemma_fixed_width_exact(processes[i].name@, NAME_CHARS as nat);
    }
}

} // verus!
