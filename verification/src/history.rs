use vstd::prelude::*;

use crate::metrics::Snapshot;

verus! {

/// Number of samples every history series keeps.
pub const HISTORY_LEN: usize = 120;

/// The window of samples after appending `v` to the window `w`: the newest
/// sample goes last, and once the window holds `HISTORY_LEN` samples the
/// oldest one leaves.
pub open spec fn window_push(w: Seq<u64>, v: u64) -> Seq<u64> {
    if w.len() < HISTORY_LEN {
        w.push(v)
    } else {
        w.drop_first().push(v)
    }
}

/// The window that a fresh buffer holds after `samples` were pushed into it,
/// one after the other.
pub open spec fn window_after(samples: Seq<u64>) -> Seq<u64>
    decreases samples.len(),
{
    if samples.len() == 0 {
        Seq::empty()
    } else {
        window_push(window_after(samples.drop_last()), samples.last())
    }
}

/// The last `HISTORY_LEN` elements of `s` (all of `s` when it is shorter).
pub open spec fn last_window(s: Seq<u64>) -> Seq<u64> {
    if s.len() <= HISTORY_LEN {
        s
    } else {
        s.subrange(s.len() - HISTORY_LEN, s.len() as int)
    }
}

/// Fixed-capacity ring buffer storing u64 samples (oldest to newest).
pub struct RingBuffer {
    data: Vec<u64>,
    head: usize,
    filled: bool,
}

impl View for RingBuffer {
    type V = Seq<u64>;

    /// The samples held, oldest first.
    closed spec fn view(&self) -> Seq<u64> {
        if self.filled {
            self.data@.subrange(self.head as int, HISTORY_LEN as int) + self.data@.subrange(
                0,
                self.head as int,
            )
        } else {
            self.data@.subrange(0, self.head as int)
        }
    }
}

impl RingBuffer {
    /// The storage is always `HISTORY_LEN` slots long and the write position
    /// lies inside it.
    #[verifier::type_invariant]
    spec fn inv(&self) -> bool {
        &&& self.data.len() == HISTORY_LEN
        &&& self.head < HISTORY_LEN
    }

    pub fn new() -> (r: Self)
        ensures
            r@ == Seq::<u64>::empty(),
    {
        let mut data: Vec<u64> = Vec::new();
        let mut i: usize = 0;
        while i < HISTORY_LEN
            invariant
                i <= HISTORY_LEN,
                data.len() == i,
            decreases HISTORY_LEN - i,
        {
            data.push(0);
            i = i + 1;
        }
        let r = RingBuffer { data, head: 0, filled: false };
        assert(r.view() =~= Seq::<u64>::empty());
        r
    }

    /// Appends a sample; once the buffer is full the oldest sample is dropped.
    pub fn push(&mut self, value: u64)
        ensures
            final(self)@ == window_push(old(self)@, value),
            final(self)@.len() <= HISTORY_LEN,
    {
        proof {
            use_type_invariant(&*self);
        }
        let ghost old_data = self.data@;
        let ghost h = self.head as int;
        let ghost was_filled = self.filled;
        let ghost old_view = self.view();
        let head = self.head;
        self.data[head] = value;
        self.head = (head + 1) % HISTORY_LEN;
        if self.head == 0 {
            self.filled = true;
        }
        proof {
            let nd = self.data@;
            assert(nd == old_data.update(h, value));
            if !was_filled {
                assert(old_view.len() < HISTORY_LEN);
                assert(self.view() =~= old_view.push(value));
            } else {
                assert(old_view.len() == HISTORY_LEN);
                assert(self.view() =~= old_view.drop_first().push(value));
            }
        }
    }

    /// Returns samples in chronological order (oldest → newest).
    pub fn as_ordered_vec(&self) -> (r: Vec<u64>)
        ensures
            r@ == self@,
            r@.len() <= HISTORY_LEN,
    {
        proof {
            use_type_invariant(self);
        }
        let mut v: Vec<u64> = Vec::new();
        if self.filled {
            let mut i: usize = self.head;
            while i < HISTORY_LEN
                invariant
                    self.data.len() == HISTORY_LEN,
                    self.head <= i <= HISTORY_LEN,
                    v@ == self.data@.subrange(self.head as int, i as int),
                decreases HISTORY_LEN - i,
            {
                v.push(self.data[i]);
                i = i + 1;
                assert(v@ =~= self.data@.subrange(self.head as int, i as int));
            }
        }
        let ghost prefix = v@;
        let mut j: usize = 0;
        while j < self.head
            invariant
                self.data.len() == HISTORY_LEN,
                self.head < HISTORY_LEN,
                j <= self.head,
                v@ == prefix + self.data@.subrange(0, j as int),
            decreases self.head - j,
        {
            v.push(self.data[j]);
            j = j + 1;
            assert(v@ =~= prefix + self.data@.subrange(0, j as int));
        }
        assert(v@ =~= self.view());
        v
    }
}

/// Whatever samples were pushed into a fresh buffer, it holds exactly the
/// most recent `HISTORY_LEN` of them (all of them while fewer were pushed),
/// oldest first; in particular it never holds more than `HISTORY_LEN`.
pub proof fn lemma_window_is_latest_samples(samples: Seq<u64>)
    ensures
        window_after(samples) == last_window(samples),
        window_after(samples).len() <= HISTORY_LEN,
    decreases samples.len(),
{
    if samples.len() > 0 {
        let rest = samples.drop_last();
        lemma_window_is_latest_samples(rest);
        if rest.len() < HISTORY_LEN {
            assert(window_after(samples) =~= samples);
        } else {
            assert(window_after(samples) =~= last_window(samples));
        }
    }
}

/// Pushing a sample always makes it the newest one held, and keeps every
/// earlier sample that still fits, in order.
pub proof fn lemma_push_keeps_newest(w: Seq<u64>, v: u64)
    requires
        w.len() <= HISTORY_LEN,
    ensures
        window_push(w, v).len() <= HISTORY_LEN,
        window_push(w, v).last() == v,
        window_push(w, v).len() == (if w.len() < HISTORY_LEN { w.len() + 1 } else { w.len() + 0 }),
        window_push(w, v).drop_last() =~= (if w.len() < HISTORY_LEN { w } else { w.drop_first() }),
{
}

/// Rolling history for the sparklines.
pub struct History {
    pub gpu_util: RingBuffer,
    pub gpu_power_w: RingBuffer,
    pub cpu_util: RingBuffer,
    pub vram_used_mib: RingBuffer,
    /// GiB × 10 to keep u64 precision
    pub ram_used_gib_x10: RingBuffer,
}

/// The GPU utilisation sample taken from a snapshot (whole percent).
pub open spec fn gpu_util_sample(snap: Snapshot) -> u64 {
    snap.gpu.utilization_gpu_pct as u64
}

/// The power sample taken from a snapshot (whole watts, rounded down).
pub open spec fn gpu_power_sample(snap: Snapshot) -> u64 {
    (snap.gpu.power_draw_mw / 1000) as u64
}

/// The CPU utilisation sample taken from a snapshot (whole percent, rounded down).
pub open spec fn cpu_util_sample(snap: Snapshot) -> u64 {
    (snap.cpu.global_utilization_pct_x100 / 100) as u64
}

/// The VRAM sample taken from a snapshot (whole MiB, rounded down).
pub open spec fn vram_sample(snap: Snapshot) -> u64 {
    snap.gpu.vram_used_bytes / (1024 * 1024) as u64
}

/// The RAM sample taken from a snapshot (tenths of a GiB, rounded down).
pub open spec fn ram_sample(snap: Snapshot) -> u64 {
    (snap.ram.used_bytes * 10 / 1073741824int) as u64
}

impl History {
    /// All five series, empty.
    pub open spec fn is_empty(&self) -> bool {
        &&& self.gpu_util.view() == Seq::<u64>::empty()
        &&& self.gpu_power_w.view() == Seq::<u64>::empty()
        &&& self.cpu_util.view() == Seq::<u64>::empty()
        &&& self.vram_used_mib.view() == Seq::<u64>::empty()
        &&& self.ram_used_gib_x10.view() == Seq::<u64>::empty()
    }

    /// `after` is `before` with one sample of `snap` appended to each series.
    pub open spec fn updated_with(before: History, after: History, snap: Snapshot) -> bool {
        &&& after.gpu_util.view() == window_push(before.gpu_util.view(), gpu_util_sample(snap))
        &&& after.gpu_power_w.view() == window_push(
            before.gpu_power_w.view(),
            gpu_power_sample(snap),
        )
        &&& after.cpu_util.view() == window_push(before.cpu_util.view(), cpu_util_sample(snap))
        &&& after.vram_used_mib.view() == window_push(
            before.vram_used_mib.view(),
            vram_sample(snap),
        )
        &&& after.ram_used_gib_x10.view() == window_push(
            before.ram_used_gib_x10.view(),
            ram_sample(snap),
        )
    }

    /// The five series hold equally many samples.
    pub open spec fn in_step(&self) -> bool {
        &&& self.gpu_power_w.view().len() == self.gpu_util.view().len()
        &&& self.cpu_util.view().len() == self.gpu_util.view().len()
        &&& self.vram_used_mib.view().len() == self.gpu_util.view().len()
        &&& self.ram_used_gib_x10.view().len() == self.gpu_util.view().len()
    }

    /// An update moves all five series on together: when they held equally
    /// many samples before, they do after.
    pub proof fn lemma_update_keeps_series_in_step(before: History, after: History, snap: Snapshot)
        requires
            before.in_step(),
            History::updated_with(before, after, snap),
        ensures
            after.in_step(),
    {
    }

    /// An update appends to each series, keeping what still fits, the
    /// snapshot's figure in that series' unit: the GPU utilisation in whole
    /// percent, the power draw in whole watts, the CPU load in whole percent,
    /// the used VRAM in whole MiB and the used RAM in whole tenths of a GiB,
    /// each rounded down.
    pub proof fn lemma_update_samples(before: History, after: History, snap: Snapshot)
        requires
            History::updated_with(before, after, snap),
            before.gpu_util@.len() <= HISTORY_LEN,
            before.gpu_power_w@.len() <= HISTORY_LEN,
            before.cpu_util@.len() <= HISTORY_LEN,
            before.vram_used_mib@.len() <= HISTORY_LEN,
            before.ram_used_gib_x10@.len() <= HISTORY_LEN,
        ensures
            after.gpu_util@.last() == snap.gpu.utilization_gpu_pct,
            1000 * after.gpu_power_w@.last() <= snap.gpu.power_draw_mw < 1000 * (
            after.gpu_power_w@.last() + 1),
            100 * after.cpu_util@.last() <= snap.cpu.global_utilization_pct_x100 < 100 * (
            after.cpu_util@.last() + 1),
            1048576 * after.vram_used_mib@.last() <= snap.gpu.vram_used_bytes < 1048576 * (
            after.vram_used_mib@.last() + 1),
            1073741824 * after.ram_used_gib_x10@.last() <= 10 * snap.ram.used_bytes < 1073741824
                * (after.ram_used_gib_x10@.last() + 1),
            after.gpu_util@.drop_last() == last_window(before.gpu_util@.push(0)).drop_last(),
            after.ram_used_gib_x10@.drop_last() == last_window(
                before.ram_used_gib_x10@.push(0),
            ).drop_last(),
    {
        lemma_push_keeps_newest(before.gpu_util@, gpu_util_sample(snap));
        lemma_push_keeps_newest(before.gpu_power_w@, gpu_power_sample(snap));
        lemma_push_keeps_newest(before.cpu_util@, cpu_util_sample(snap));
        lemma_push_keeps_newest(before.vram_used_mib@, vram_sample(snap));
        lemma_push_keeps_newest(before.ram_used_gib_x10@, ram_sample(snap));
        let g = before.gpu_util@;
        if g.len() < HISTORY_LEN {
            assert(last_window(g.push(0)) =~= g.push(0));
        } else {
            assert(last_window(g.push(0)).drop_last() =~= g.drop_first());
        }
        let r = before.ram_used_gib_x10@;
        if r.len() < HISTORY_LEN {
            assert(last_window(r.push(0)) =~= r.push(0));
        } else {
            assert(last_window(r.push(0)).drop_last() =~= r.drop_first());
        }
        let vram = snap.gpu.vram_used_bytes as int;
        assert(vram_sample(snap) == vram / 1048576);
        vstd::arithmetic::div_mod::lemma_fundamental_div_mod(vram, 1048576);
        vstd::arithmetic::div_mod::lemma_mod_bound(vram, 1048576);
        let used = snap.ram.used_bytes as int;
        assert(ram_sample(snap) == (used * 10) / 1073741824);
        vstd::arithmetic::div_mod::lemma_fundamental_div_mod(used * 10, 1073741824);
        vstd::arithmetic::div_mod::lemma_mod_bound(used * 10, 1073741824);
    }

    pub fn new() -> (h: Self)
        ensures
            h.is_empty(),
            h.in_step(),
    {
        History {
            gpu_util: RingBuffer::new(),
            gpu_power_w: RingBuffer::new(),
            cpu_util: RingBuffer::new(),
            vram_used_mib: RingBuffer::new(),
            ram_used_gib_x10: RingBuffer::new(),
        }
    }

    /// Appends one sample of `snap` to every series.
    pub fn update(&mut self, snap: &Snapshot)
        ensures
            History::updated_with(*old(self), *final(self), *snap),
    {
        self.gpu_util.push(snap.gpu.utilization_gpu_pct as u64);
        self.gpu_power_w.push((snap.gpu.power_draw_mw / 1000) as u64);
        self.cpu_util.push((snap.cpu.global_utilization_pct_x100 / 100) as u64);
        self.vram_used_mib.push(snap.gpu.vram_used_bytes / (1024 * 1024));
        let ram_x10: u128 = (snap.ram.used_bytes as u128) * 10 / (1024 * 1024 * 1024);
        assert(ram_x10 <= u64::MAX) by (nonlinear_arith)
            requires
                ram_x10 == (snap.ram.used_bytes as u128) * 10 / 1073741824,
                snap.ram.used_bytes <= u64::MAX,
        ;
        self.ram_used_gib_x10.push(ram_x10 as u64);
    }
}

} // verus!
