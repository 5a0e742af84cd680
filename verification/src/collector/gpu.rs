use vstd::prelude::*;

use crate::metrics::{GpuMetrics, GpuProcess};
use crate::text::{dec, fmt_u64, push_char, push_str};

verus! {

/// Unicode White_Space characters, the ones that `str::trim` removes.
pub open spec fn is_white_space(c: char) -> bool {
    let u = c as u32;
    ||| 0x09 <= u <= 0x0D
    ||| u == 0x20
    ||| u == 0x85
    ||| u == 0xA0
    ||| u == 0x1680
    ||| 0x2000 <= u <= 0x200A
    ||| u == 0x2028
    ||| u == 0x2029
    ||| u == 0x202F
    ||| u == 0x205F
    ||| u == 0x3000
}

pub open spec fn trim_start(s: Seq<char>) -> Seq<char>
    decreases s.len(),
{
    if s.len() > 0 && is_white_space(s[0]) {
        trim_start(s.drop_first())
    } else {
        s
    }
}

pub open spec fn trim_end(s: Seq<char>) -> Seq<char>
    decreases s.len(),
{
    if s.len() > 0 && is_white_space(s.last()) {
        trim_end(s.drop_last())
    } else {
        s
    }
}

/// `s` without its leading and trailing white space.
pub open spec fn trimmed(s: Seq<char>) -> Seq<char> {
    trim_end(trim_start(s))
}

fn white_space(c: char) -> (r: bool)
    ensures
        r == is_white_space(c),
{
    let u = c as u32;
    (0x09 <= u && u <= 0x0D) || u == 0x20 || u == 0x85 || u == 0xA0 || u == 0x1680 || (0x2000
        <= u && u <= 0x200A) || u == 0x2028 || u == 0x2029 || u == 0x202F || u == 0x205F || u
        == 0x3000
}

proof fn lemma_trim_start_at(s: Seq<char>, k: int)
    requires
        0 <= k <= s.len(),
        forall|i: int| 0 <= i < k ==> is_white_space(#[trigger] s[i]),
        k == s.len() || !is_white_space(s[k]),
    ensures
        trim_start(s) == s.subrange(k, s.len() as int),
    decreases k,
{
    if k == 0 {
        assert(s.subrange(0, s.len() as int) =~= s);
    } else {
        let t = s.drop_first();
        assert forall|i: int| 0 <= i < k - 1 implies is_white_space(#[trigger] t[i]) by {
            assert(t[i] == s[i + 1]);
        }
        lemma_trim_start_at(t, k - 1);
        assert(t.subrange(k - 1, t.len() as int) =~= s.subrange(k, s.len() as int));
    }
}

proof fn lemma_trim_end_at(s: Seq<char>, k: int)
    requires
        0 <= k <= s.len(),
        forall|i: int| k <= i < s.len() ==> is_white_space(#[trigger] s[i]),
        k == 0 || !is_white_space(s[k - 1]),
    ensures
        trim_end(s) == s.subrange(0, k),
    decreases s.len() - k,
{
    if k == s.len() {
        assert(s.subrange(0, k) =~= s);
    } else {
        let t = s.drop_last();
        lemma_trim_end_at(t, k);
        assert(t.subrange(0, k) =~= s.subrange(0, k));
    }
}

/// `s` without leading and trailing white space, as `str::trim` gives it.
fn trim(s: &str) -> (r: String)
    ensures
        r@ == trimmed(s@),
{
    let n = s.unicode_len();
    let mut i: usize = 0;
    while i < n && white_space(s.get_char(i))
        invariant
            n == s@.len(),
            i <= n,
            forall|k: int| 0 <= k < i ==> is_white_space(#[trigger] s@[k]),
        decreases n - i,
    {
        i = i + 1;
    }
    let mut j: usize = n;
    while j > i && white_space(s.get_char(j - 1))
        invariant
            n == s@.len(),
            i <= j <= n,
            forall|k: int| j <= k < n ==> is_white_space(#[trigger] s@[k]),
        decreases j - i,
    {
        j = j - 1;
    }
    proof {
        lemma_trim_start_at(s@, i as int);
        let t = s@.subrange(i as int, n as int);
        assert forall|k: int| j - i <= k < t.len() implies is_white_space(#[trigger] t[k]) by {
            assert(t[k] == s@[k + i]);
        }
        if j > i {
            assert(t[j - i - 1] == s@[j - 1]);
        }
        lemma_trim_end_at(t, j - i);
        assert(t.subrange(0, j - i) =~= s@.subrange(i as int, j as int));
    }
    let mut r = String::new();
    push_str(&mut r, s.substring_char(i, j));
    r
}

/// The name "pid:{pid}" used for a process whose name cannot be read.
pub open spec fn pid_name(pid: u32) -> Seq<char> {
    seq!['p', 'i', 'd', ':'] + dec(pid as nat)
}

/// The displayed name of process `pid`: the contents of its `comm` entry
/// without surrounding white space when it could be read, "pid:{pid}"
/// otherwise.
pub open spec fn process_name(comm: Option<String>, pid: u32) -> Seq<char> {
    match comm {
        Some(c) => trimmed(c@),
        None => pid_name(pid),
    }
}

proof fn lemma_digits_not_white(n: nat)
    ensures
        dec(n).len() >= 1,
        !is_white_space(dec(n).last()),
    decreases n,
{
    if n >= 10 {
        lemma_digits_not_white(n / 10);
    }
}

/// `p` is process `pid` with the given memory reading and name entry.
pub open spec fn gpu_process_ok(
    p: GpuProcess,
    pid: u32,
    used_gpu_memory: Option<u64>,
    comm: Option<String>,
) -> bool {
    &&& p.pid == pid
    &&& p.name@ == process_name(comm, pid)
    &&& p.vram_bytes == (match used_gpu_memory {
        Some(b) => b,
        None => 0,
    })
}

/// One GPU process: its pid, displayed name (see `process_name`) and the
/// VRAM it uses (zero when the driver does not report it).
pub fn gpu_process(pid: u32, used_gpu_memory: Option<u64>, comm: Option<String>) -> (p: GpuProcess)
    ensures
        gpu_process_ok(p, pid, used_gpu_memory, comm),
{
    let vram_bytes = match used_gpu_memory {
        Some(b) => b,
        None => 0,
    };
    let name = match comm {
        Some(c) => trim(c.as_str()),
        None => {
            let mut raw = String::new();
            push_char(&mut raw, 'p');
            push_char(&mut raw, 'i');
            push_char(&mut raw, 'd');
            push_char(&mut raw, ':');
            let digits = fmt_u64(pid as u64);
            push_str(&mut raw, digits.as_str());
            proof {
                lemma_digits_not_white(pid as nat);
                assert(raw@ =~= pid_name(pid));
                assert(!is_white_space(raw@[0]));
                assert(trim_start(raw@) == raw@);
                assert(trim_end(raw@) == raw@);
            }
            trim(raw.as_str())
        },
    };
    GpuProcess { pid, name, vram_bytes }
}

proof fn lemma_trim_start_shape(s: Seq<char>)
    ensures
        trim_start(s).len() <= s.len(),
        trim_start(s) == s.subrange(s.len() - trim_start(s).len(), s.len() as int),
        forall|i: int| 0 <= i < s.len() - trim_start(s).len() ==> is_white_space(#[trigger] s[i]),
        trim_start(s).len() > 0 ==> !is_white_space(trim_start(s)[0]),
    decreases s.len(),
{
    if s.len() > 0 && is_white_space(s[0]) {
        let t = s.drop_first();
        lemma_trim_start_shape(t);
        assert(t.subrange(t.len() - trim_start(t).len(), t.len() as int) =~= s.subrange(
            s.len() - trim_start(s).len(),
            s.len() as int,
        ));
        assert forall|i: int| 0 <= i < s.len() - trim_start(s).len() implies is_white_space(
            #[trigger] s[i],
        ) by {
            if i > 0 {
                assert(s[i] == t[i - 1]);
            }
        }
    } else {
        assert(s.subrange(0, s.len() as int) =~= s);
    }
}

proof fn lemma_trim_end_shape(s: Seq<char>)
    ensures
        trim_end(s).len() <= s.len(),
        trim_end(s) == s.subrange(0, trim_end(s).len() as int),
        forall|i: int| trim_end(s).len() <= i < s.len() ==> is_white_space(#[trigger] s[i]),
        trim_end(s).len() > 0 ==> !is_white_space(trim_end(s).last()),
    decreases s.len(),
{
    if s.len() > 0 && is_white_space(s.last()) {
        let t = s.drop_last();
        lemma_trim_end_shape(t);
        assert(t.subrange(0, trim_end(t).len() as int) =~= s.subrange(
            0,
            trim_end(s).len() as int,
        ));
        assert forall|i: int| trim_end(s).len() <= i < s.len() implies is_white_space(
            #[trigger] s[i],
        ) by {
            if i < s.len() - 1 {
                assert(s[i] == t[i]);
            }
        }
    } else {
        assert(s.subrange(0, s.len() as int) =~= s);
    }
}

/// Trimming keeps a stretch of the text, all of whose neighbours are white
/// space, and that neither starts nor ends with white space.
pub proof fn lemma_trimmed_shape(s: Seq<char>)
    ensures
        exists|i: int, j: int|
            0 <= i <= j <= s.len() && trimmed(s) == s.subrange(i, j) && (forall|k: int|
                0 <= k < i ==> is_white_space(#[trigger] s[k])) && (forall|k: int|
                j <= k < s.len() ==> is_white_space(#[trigger] s[k])),
        trimmed(s).len() > 0 ==> !is_white_space(trimmed(s)[0]) && !is_white_space(
            trimmed(s).last(),
        ),
{
    lemma_trim_start_shape(s);
    let t = trim_start(s);
    lemma_trim_end_shape(t);
    let i = s.len() - t.len();
    let j = i + trim_end(t).len();
    assert(trimmed(s) =~= s.subrange(i, j));
    assert forall|k: int| j <= k < s.len() implies is_white_space(#[trigger] s[k]) by {
        assert(s[k] == t[k - i]);
    }
    if trimmed(s).len() > 0 {
        assert(trimmed(s)[0] == t[0]);
    }
}

/// A GPU process keeps its pid; its VRAM is the reported amount, or zero
/// when none was reported; its name is the name entry without surrounding
/// white space (a stretch of the entry, neither starting nor ending with
/// white space, and only white space cut off) when the entry was read, and
/// "pid:" followed by the pid's digits otherwise.
pub proof fn lemma_gpu_process_shows(
    p: GpuProcess,
    pid: u32,
    used_gpu_memory: Option<u64>,
    comm: Option<String>,
)
    requires
        gpu_process_ok(p, pid, used_gpu_memory, comm),
    ensures
        p.pid == pid,
        used_gpu_memory matches Some(b) ==> p.vram_bytes == b,
        used_gpu_memory is None ==> p.vram_bytes == 0,
        comm matches Some(c) ==> exists|i: int, j: int|
            0 <= i <= j <= c@.len() && p.name@ == c@.subrange(i, j) && (forall|k: int|
                0 <= k < i ==> is_white_space(#[trigger] c@[k])) && (forall|k: int|
                j <= k < c@.len() ==> is_white_space(#[trigger] c@[k])),
        comm is Some && p.name@.len() > 0 ==> !is_white_space(p.name@[0]) && !is_white_space(
            p.name@.last(),
        ),
        comm is None ==> p.name@.take(4) == seq!['p', 'i', 'd', ':'] && crate::text::decimal_value(
            p.name@.skip(4),
        ) == pid,
{
    match comm {
        Some(c) => {
            lemma_trimmed_shape(c@);
        },
        None => {
            crate::text::lemma_dec_spells(pid as nat);
            assert(p.name@.take(4) =~= seq!['p', 'i', 'd', ':']);
            assert(p.name@.skip(4) =~= dec(pid as nat));
        },
    }
}

/// One reading of the GPU's counters; `None` for each counter that the
/// driver failed to report.
pub struct GpuReadings {
    pub name: Option<String>,
    pub temperature_c: Option<u32>,
    pub fan_speed_pct: Option<u32>,
    /// GPU and memory-bandwidth utilisation, in percent.
    pub utilization: Option<(u32, u32)>,
    pub clock_graphics_mhz: Option<u32>,
    pub clock_sm_mhz: Option<u32>,
    pub clock_memory_mhz: Option<u32>,
    pub power_draw_mw: Option<u32>,
    pub power_limit_mw: Option<u32>,
    /// Used, free and total VRAM, in bytes.
    pub memory: Option<(u64, u64, u64)>,
    pub processes: Option<Vec<GpuProcess>>,
}

pub open spec fn or_zero(v: Option<u32>) -> u32 {
    match v {
        Some(x) => x,
        None => 0,
    }
}

/// "Unknown GPU", the name shown when the driver reports none.
pub open spec fn unknown_gpu_name() -> Seq<char> {
    seq!['U', 'n', 'k', 'n', 'o', 'w', 'n', ' ', 'G', 'P', 'U']
}

fn value_or_zero(v: Option<u32>) -> (r: u32)
    ensures
        r == or_zero(v),
{
    match v {
        Some(x) => x,
        None => 0,
    }
}

/// `m` holds the readings of `r`, each counter that was not reported as
/// zero, the name as "Unknown GPU" and the process list as empty.
pub open spec fn gpu_metrics_ok(m: GpuMetrics, r: GpuReadings) -> bool {
    &&& m.name@ == (match r.name {
        Some(n) => n@,
        None => unknown_gpu_name(),
    })
    &&& m.temperature_c == or_zero(r.temperature_c)
    &&& m.fan_speed_pct == or_zero(r.fan_speed_pct)
    &&& m.utilization_gpu_pct == (match r.utilization {
        Some(u) => u.0,
        None => 0,
    })
    &&& m.utilization_mem_pct == (match r.utilization {
        Some(u) => u.1,
        None => 0,
    })
    &&& m.clock_graphics_mhz == or_zero(r.clock_graphics_mhz)
    &&& m.clock_sm_mhz == or_zero(r.clock_sm_mhz)
    &&& m.clock_memory_mhz == or_zero(r.clock_memory_mhz)
    &&& m.power_draw_mw == or_zero(r.power_draw_mw)
    &&& m.power_limit_mw == or_zero(r.power_limit_mw)
    &&& (m.vram_used_bytes, m.vram_free_bytes, m.vram_total_bytes) == (match r.memory {
        Some(t) => t,
        None => (0u64, 0u64, 0u64),
    })
    &&& m.processes@ == (match r.processes {
        Some(p) => p@,
        None => Seq::<GpuProcess>::empty(),
    })
}

/// The metrics keep every counter that was reported, and count each one that
/// was not as zero, the name as "Unknown GPU" and the process list as empty.
pub proof fn lemma_gpu_metrics_shows(m: GpuMetrics, r: GpuReadings)
    requires
        gpu_metrics_ok(m, r),
    ensures
        r.name matches Some(n) ==> m.name@ == n@,
        r.name is None ==> m.name@ == seq!['U', 'n', 'k', 'n', 'o', 'w', 'n', ' ', 'G', 'P', 'U'],
        r.temperature_c matches Some(t) ==> m.temperature_c == t,
        r.temperature_c is None ==> m.temperature_c == 0,
        r.fan_speed_pct matches Some(f) ==> m.fan_speed_pct == f,
        r.fan_speed_pct is None ==> m.fan_speed_pct == 0,
        r.utilization matches Some(u) ==> m.utilization_gpu_pct == u.0 && m.utilization_mem_pct
            == u.1,
        r.utilization is None ==> m.utilization_gpu_pct == 0 && m.utilization_mem_pct == 0,
        r.clock_graphics_mhz matches Some(c) ==> m.clock_graphics_mhz == c,
        r.clock_graphics_mhz is None ==> m.clock_graphics_mhz == 0,
        r.clock_sm_mhz matches Some(c) ==> m.clock_sm_mhz == c,
        r.clock_sm_mhz is None ==> m.clock_sm_mhz == 0,
        r.clock_memory_mhz matches Some(c) ==> m.clock_memory_mhz == c,
        r.clock_memory_mhz is None ==> m.clock_memory_mhz == 0,
        r.power_draw_mw matches Some(w) ==> m.power_draw_mw == w,
        r.power_draw_mw is None ==> m.power_draw_mw == 0,
        r.power_limit_mw matches Some(w) ==> m.power_limit_mw == w,
        r.power_limit_mw is None ==> m.power_limit_mw == 0,
        r.memory matches Some(t) ==> m.vram_used_bytes == t.0 && m.vram_free_bytes == t.1
            && m.vram_total_bytes == t.2,
        r.memory is None ==> m.vram_used_bytes == 0 && m.vram_free_bytes == 0
            && m.vram_total_bytes == 0,
        r.processes matches Some(ps) ==> m.processes@ == ps@,
        r.processes is None ==> m.processes@.len() == 0,
{
}

/// The GPU metrics of one reading: every counter that was not reported
/// counts as zero (the name as "Unknown GPU", the process list as empty).
pub fn gpu_metrics(r: GpuReadings) -> (m: GpuMetrics)
    ensures
        gpu_metrics_ok(m, r),
{
    let name = match r.name {
        Some(n) => n,
        None => {
            let mut n = String::new();
            push_char(&mut n, 'U');
            push_char(&mut n, 'n');
            push_char(&mut n, 'k');
            push_char(&mut n, 'n');
            push_char(&mut n, 'o');
            push_char(&mut n, 'w');
            push_char(&mut n, 'n');
            push_char(&mut n, ' ');
            push_char(&mut n, 'G');
            push_char(&mut n, 'P');
            push_char(&mut n, 'U');
            assert(n@ =~= unknown_gpu_name());
            n
        },
    };
    let (utilization_gpu_pct, utilization_mem_pct) = match r.utilization {
        Some(u) => u,
        None => (0, 0),
    };
    let (vram_used_bytes, vram_free_bytes, vram_total_bytes) = match r.memory {
        Some(t) => t,
        None => (0, 0, 0),
    };
    let processes = match r.processes {
        Some(p) => p,
        None => Vec::new(),
    };
    GpuMetrics {
        name,
        temperature_c: value_or_zero(r.temperature_c),
        fan_speed_pct: value_or_zero(r.fan_speed_pct),
        utilization_gpu_pct,
        utilization_mem_pct,
        clock_graphics_mhz: value_or_zero(r.clock_graphics_mhz),
        clock_sm_mhz: value_or_zero(r.clock_sm_mhz),
        clock_memory_mhz: value_or_zero(r.clock_memory_mhz),
        power_draw_mw: value_or_zero(r.power_draw_mw),
        power_limit_mw: value_or_zero(r.power_limit_mw),
        vram_used_bytes,
        vram_free_bytes,
        vram_total_bytes,
        processes,
    }
}

} // verus!
