//! Windowed accumulation of radiation counts.
//!
//! Each reading adds its per-channel counts into the sums of the current
//! window. A window swap, driven from outside at the reporting cadence,
//! moves the current sums to the previous ones and starts a new window with
//! zero sums. Taking a snapshot changes nothing.
use vstd::prelude::*;

use crate::objects::RCHk;

verus! {

/// Length of a window, in the time unit of the timestamps.
pub const WINDOW_LENGTH: i64 = 30;

/// The state of an [`Aggregator`] as plain values.
pub struct AggregatorView {
    /// Latest reading of each channel
    pub latest: Seq<u32>,
    /// Per-channel sums of the current window
    pub current: Seq<u64>,
    /// Per-channel sums of the previous window
    pub previous: Seq<u64>,
    /// Start of the current window
    pub window_start: int,
}

impl AggregatorView {
    /// Every channel has a latest reading and two sums.
    pub open spec fn wf(self) -> bool {
        &&& self.current.len() == self.latest.len()
        &&& self.previous.len() == self.latest.len()
    }

    /// Number of channels.
    pub open spec fn channels(self) -> nat {
        self.latest.len()
    }
}

/// `a + b`, or the largest `u64` where that is larger.
pub open spec fn sat_add(a: u64, b: u32) -> u64 {
    if a + b > u64::MAX {
        u64::MAX
    } else {
        (a + b) as u64
    }
}

/// The state after recording `reading`.
pub open spec fn spec_record(s: AggregatorView, reading: Seq<u32>) -> AggregatorView {
    AggregatorView {
        latest: reading,
        current: Seq::new(s.current.len(), |i: int| sat_add(s.current[i], reading[i])),
        ..s
    }
}

/// The state after swapping windows at time `now`.
pub open spec fn spec_swap(s: AggregatorView, now: int) -> AggregatorView {
    AggregatorView {
        current: Seq::new(s.current.len(), |i: int| 0u64),
        previous: s.current,
        window_start: now - WINDOW_LENGTH,
        ..s
    }
}

/// The state after recording `readings` in order, starting from `s`.
pub open spec fn replay(s: AggregatorView, readings: Seq<Seq<u32>>) -> AggregatorView
    decreases readings.len(),
{
    if readings.len() == 0 {
        s
    } else {
        spec_record(replay(s, readings.drop_last()), readings.last())
    }
}

/// Sum of channel `i` over `readings`.
pub open spec fn column_sum(readings: Seq<Seq<u32>>, i: int) -> int
    decreases readings.len(),
{
    if readings.len() == 0 {
        0
    } else {
        column_sum(readings.drop_last(), i) + readings.last()[i]
    }
}

/// Recording `readings` in order from zero sums leaves in each channel the
/// sum of that channel's counts, wherever that sum fits a `u64`.
pub proof fn lemma_replay_sums(s: AggregatorView, readings: Seq<Seq<u32>>)
    requires
        s.wf(),
        forall|i: int| 0 <= i < s.channels() ==> s.current[i] == 0,
        forall|k: int| 0 <= k < readings.len() ==> (#[trigger] readings[k]).len() == s.channels(),
        forall|i: int| 0 <= i < s.channels() ==> #[trigger] column_sum(readings, i) <= u64::MAX,
    ensures
        replay(s, readings).wf(),
        replay(s, readings).channels() == s.channels(),
        replay(s, readings).window_start == s.window_start,
        forall|i: int|
            0 <= i < s.channels() ==> replay(s, readings).current[i] == column_sum(readings, i),
    decreases readings.len(),
{
    if readings.len() > 0 {
        let prefix = readings.drop_last();
        assert forall|k: int| 0 <= k < prefix.len() implies (#[trigger] prefix[k]).len()
            == s.channels() by {
            assert(prefix[k] == readings[k]);
        }
        assert forall|i: int| 0 <= i < s.channels() implies #[trigger] column_sum(prefix, i)
            <= u64::MAX by {
            assert(column_sum(readings, i) == column_sum(prefix, i) + readings.last()[i]);
        }
        lemma_replay_sums(s, prefix);
        assert(readings.last() == readings[readings.len() - 1]);
        assert forall|i: int| 0 <= i < s.channels() implies replay(s, readings).current[i]
            == column_sum(readings, i) by {
            assert(column_sum(readings, i) == column_sum(prefix, i) + readings.last()[i]);
        }
    }
}

/// Recording readings from zero sums gives, channel by channel, the sum of
/// the recorded counts, wherever that sum fits a `u64`. A window swap at
/// time `now` then moves exactly those sums to the previous window, leaves
/// the current sums all zero, and starts the window at `now` less the
/// window length.
pub proof fn lemma_window_sums(s: AggregatorView, readings: Seq<Seq<u32>>, now: int)
    requires
        s.wf(),
        forall|i: int| 0 <= i < s.channels() ==> s.current[i] == 0,
        forall|k: int| 0 <= k < readings.len() ==> (#[trigger] readings[k]).len() == s.channels(),
        forall|i: int| 0 <= i < s.channels() ==> #[trigger] column_sum(readings, i) <= u64::MAX,
    ensures
        forall|i: int|
            0 <= i < s.channels() ==> replay(s, readings).current[i] == column_sum(readings, i),
        spec_swap(replay(s, readings), now).previous == replay(s, readings).current,
        spec_swap(replay(s, readings), now).current.len() == s.channels(),
        forall|i: int|
            0 <= i < s.channels() ==> spec_swap(replay(s, readings), now).current[i] == 0,
        spec_swap(replay(s, readings), now).window_start == now - WINDOW_LENGTH,
{
    lemma_replay_sums(s, readings);
}

/// Accumulates per-channel radiation counts into windows.
pub struct Aggregator {
    latest: Vec<u32>,
    current: Vec<u64>,
    previous: Vec<u64>,
    window_start: i64,
}

impl View for Aggregator {
    type V = AggregatorView;

    closed spec fn view(&self) -> AggregatorView {
        AggregatorView {
            latest: self.latest@,
            current: self.current@,
            previous: self.previous@,
            window_start: self.window_start as int,
        }
    }
}

/// A vector of `n` zeros.
fn zeros_u64(n: usize) -> (r: Vec<u64>)
    ensures
        r@ == Seq::new(n as nat, |i: int| 0u64),
{
    let mut r: Vec<u64> = Vec::with_capacity(n);
    let mut k: usize = 0;
    while k < n
        invariant
            k <= n,
            r@ == Seq::new(k as nat, |i: int| 0u64),
        decreases n - k,
    {
        r.push(0);
        k = k + 1;
    }
    r
}

/// A copy of `v`.
fn copy_u32(v: &Vec<u32>) -> (r: Vec<u32>)
    ensures
        r@ == v@,
{
    let mut r: Vec<u32> = Vec::with_capacity(v.len());
    let mut k: usize = 0;
    while k < v.len()
        invariant
            k <= v.len(),
            r@ == v@.subrange(0, k as int),
        decreases v.len() - k,
    {
        r.push(v[k]);
        k = k + 1;
    }
    r
}

/// A copy of `v`.
fn copy_u64(v: &Vec<u64>) -> (r: Vec<u64>)
    ensures
        r@ == v@,
{
    let mut r: Vec<u64> = Vec::with_capacity(v.len());
    let mut k: usize = 0;
    while k < v.len()
        invariant
            k <= v.len(),
            r@ == v@.subrange(0, k as int),
        decreases v.len() - k,
    {
        r.push(v[k]);
        k = k + 1;
    }
    r
}

impl Aggregator {
    /// An aggregator of `channels` channels, with zero readings and sums and
    /// a window starting at time 0.
    pub fn new(channels: usize) -> (r: Aggregator)
        ensures
            r@.wf(),
            r@.channels() == channels,
            r@.latest == Seq::new(channels as nat, |i: int| 0u32),
            r@.current == Seq::new(channels as nat, |i: int| 0u64),
            r@.previous == Seq::new(channels as nat, |i: int| 0u64),
            r@.window_start == 0,
    {
        let mut latest: Vec<u32> = Vec::with_capacity(channels);
        let mut k: usize = 0;
        while k < channels
            invariant
                k <= channels,
                latest@ == Seq::new(k as nat, |i: int| 0u32),
            decreases channels - k,
        {
            latest.push(0);
            k = k + 1;
        }
        Aggregator {
            latest,
            current: zeros_u64(channels),
            previous: zeros_u64(channels),
            window_start: 0,
        }
    }

    /// A copy of this aggregator.
    pub fn duplicate(&self) -> (r: Aggregator)
        ensures
            r@ == self@,
    {
        Aggregator {
            latest: copy_u32(&self.latest),
            current: copy_u64(&self.current),
            previous: copy_u64(&self.previous),
            window_start: self.window_start,
        }
    }

    /// Number of channels.
    pub fn channels(&self) -> (r: usize)
        ensures
            r == self@.channels(),
    {
        self.latest.len()
    }

    /// Adds each channel's count of `reading` into the current window, and
    /// keeps `reading` as the latest one. A sum that would pass the largest
    /// `u64` stays at it.
    pub fn record(&mut self, reading: &[u32])
        requires
            old(self)@.wf(),
            reading@.len() == old(self)@.channels(),
        ensures
            final(self)@ == spec_record(old(self)@, reading@),
            final(self)@.wf(),
    {
        let n = self.current.len();
        let mut k: usize = 0;
        while k < n
            invariant
                n == self.current.len(),
                n == reading@.len(),
                n == old(self)@.current.len(),
                self.previous@ == old(self)@.previous,
                self.window_start == old(self)@.window_start,
                k <= n,
                forall|i: int|
                    0 <= i < k ==> self.current@[i] == sat_add(old(self)@.current[i], reading@[i]),
                forall|i: int| k <= i < n ==> self.current@[i] == old(self)@.current[i],
            decreases n - k,
        {
            let sum = self.current[k].saturating_add(reading[k] as u64);
            self.current.set(k, sum);
            k = k + 1;
        }
        let mut latest: Vec<u32> = Vec::with_capacity(n);
        let mut j: usize = 0;
        while j < n
            invariant
                n == reading@.len(),
                j <= n,
                latest@ == reading@.subrange(0, j as int),
            decreases n - j,
        {
            latest.push(reading[j]);
            j = j + 1;
        }
        self.latest = latest;
        assert(self.current@ =~= spec_record(old(self)@, reading@).current);
        assert(self.latest@ =~= reading@);
    }

    /// Closes the current window at time `now`: its sums become the previous
    /// ones, the current sums restart at zero, and the new window starts at
    /// `now` less the window length.
    pub fn swap_window(&mut self, now: i64)
        requires
            old(self)@.wf(),
            now >= i64::MIN + WINDOW_LENGTH,
        ensures
            final(self)@ == spec_swap(old(self)@, now as int),
            final(self)@.wf(),
    {
        let n = self.current.len();
        self.previous = copy_u64(&self.current);
        self.current = zeros_u64(n);
        self.window_start = now - WINDOW_LENGTH;
    }

    /// The latest readings, the window start and the two windows' sums.
    pub fn snapshot(&self) -> (r: RCHk)
        ensures
            r.readings@ == self@.latest,
            r.timestamp == self@.window_start,
            r.sum@ == self@.current,
            r.prev_sum@ == self@.previous,
    {
        RCHk {
            readings: copy_u32(&self.latest),
            timestamp: self.window_start,
            sum: copy_u64(&self.current),
            prev_sum: copy_u64(&self.previous),
        }
    }
}

} // verus!
