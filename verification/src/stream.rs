//! Progress tracking and operation statistics.

use vstd::prelude::*;

verus! {

/// How far a job of known size has come, and whether it was cancelled.
#[derive(Debug, Clone)]
pub struct ProgressTracker {
    total: u64,
    processed: u64,
    cancelled: bool,
}

/// The state of a tracker: total, processed, cancelled.
pub type ProgressState = (u64, u64, bool);

impl View for ProgressTracker {
    type V = ProgressState;

    closed spec fn view(&self) -> ProgressState {
        (self.total, self.processed, self.cancelled)
    }
}

impl ProgressTracker {
    /// Nothing processed of `total`.
    pub fn new(total: usize) -> (t: Self)
        ensures
            t@ == (total as u64, 0u64, false),
    {
        ProgressTracker { total: total as u64, processed: 0, cancelled: false }
    }

    /// Counts `amount` more as processed, and returns the processed amount
    /// and the total, which a progress callback is shown.
    pub fn update(&mut self, amount: usize) -> (r: (u64, u64))
        requires
            old(self)@.1 + amount <= u64::MAX,
        ensures
            final(self)@ == (old(self)@.0, (old(self)@.1 + amount) as u64, old(self)@.2),
            r == (final(self)@.1, final(self)@.0),
    {
        self.processed = self.processed + amount as u64;
        (self.processed, self.total)
    }

    /// Takes a progress callback's answer: `false` cancels the job.
    pub fn answer(&mut self, keep_going: bool)
        ensures
            final(self)@ == (old(self)@.0, old(self)@.1, old(self)@.2 || !keep_going),
    {
        if !keep_going {
            self.cancelled = true;
        }
    }

    /// Whether the job was cancelled.
    pub fn is_cancelled(&self) -> (b: bool)
        ensures
            b == self@.2,
    {
        self.cancelled
    }

    /// The amount processed.
    pub fn processed(&self) -> (n: u64)
        ensures
            n == self@.1,
    {
        self.processed
    }

    /// The total amount.
    pub fn total(&self) -> (n: u64)
        ensures
            n == self@.0,
    {
        self.total
    }
}

/// Once cancelled, a tracker stays cancelled, whatever is counted or
/// answered afterwards; and counting never changes the total.
pub proof fn law_cancel_sticks(before: ProgressState, after_update: ProgressState, after_answer: ProgressState, amount: nat, keep_going: bool)
    requires
        after_update == (before.0, (before.1 + amount) as u64, before.2),
        after_answer == (after_update.0, after_update.1, after_update.2 || !keep_going),
    ensures
        before.2 ==> after_answer.2,
        after_answer.0 == before.0,
{
}

/// Counts of operations and the time they took.
#[derive(Debug, Clone)]
pub struct PerformanceStats {
    pub total_operations: u64,
    pub successful_operations: u64,
    pub failed_operations: u64,
    pub total_time_us: u64,
}

/// `a + b` wrapped to 64 bits, as an atomic counter adds.
pub open spec fn add_wrapping(a: u64, b: u64) -> u64 {
    if a + b > u64::MAX {
        (a + b - u64::MAX - 1) as u64
    } else {
        (a + b) as u64
    }
}

fn wrapping_add_u64(a: u64, b: u64) -> (r: u64)
    ensures
        r == add_wrapping(a, b),
{
    if b > u64::MAX - a {
        b - (u64::MAX - a) - 1
    } else {
        a + b
    }
}

impl PerformanceStats {
    /// No operation yet.
    pub fn new() -> (s: Self)
        ensures
            s.total_operations == 0,
            s.successful_operations == 0,
            s.failed_operations == 0,
            s.total_time_us == 0,
    {
        PerformanceStats { total_operations: 0, successful_operations: 0, failed_operations: 0, total_time_us: 0 }
    }

    /// Records one operation, its outcome and the microseconds it took.
    /// The counters wrap around at 2^64.
    pub fn record(&mut self, success: bool, elapsed_us: u64)
        ensures
            final(self).total_operations == add_wrapping(old(self).total_operations, 1),
            final(self).total_time_us == add_wrapping(old(self).total_time_us, elapsed_us),
            success ==> final(self).successful_operations == add_wrapping(old(self).successful_operations, 1)
                && final(self).failed_operations == old(self).failed_operations,
            !success ==> final(self).failed_operations == add_wrapping(old(self).failed_operations, 1)
                && final(self).successful_operations == old(self).successful_operations,
    {
        self.total_operations = wrapping_add_u64(self.total_operations, 1);
        self.total_time_us = wrapping_add_u64(self.total_time_us, elapsed_us);
        if success {
            self.successful_operations = wrapping_add_u64(self.successful_operations, 1);
        } else {
            self.failed_operations = wrapping_add_u64(self.failed_operations, 1);
        }
    }

    /// The mean time of an operation in microseconds, rounded down; 0 when
    /// there was none.
    pub fn avg_time_us(&self) -> (a: u64)
        ensures
            self.total_operations == 0 ==> a == 0,
            self.total_operations != 0 ==> a == self.total_time_us / self.total_operations,
    {
        if self.total_operations == 0 {
            0
        } else {
            self.total_time_us / self.total_operations
        }
    }
}

impl Default for PerformanceStats {
    fn default() -> (s: Self)
        ensures
            s.total_operations == 0,
            s.successful_operations == 0,
            s.failed_operations == 0,
            s.total_time_us == 0,
    {
        PerformanceStats::new()
    }
}

/// While no counter wraps, every recorded operation is counted once, as a
/// success or as a failure.
pub proof fn law_stats_balance(before: PerformanceStats, after: PerformanceStats, success: bool, elapsed_us: u64)
    requires
        before.total_operations == before.successful_operations + before.failed_operations,
        before.total_operations < u64::MAX,
        after.total_operations == add_wrapping(before.total_operations, 1),
        success ==> after.successful_operations == add_wrapping(before.successful_operations, 1)
            && after.failed_operations == before.failed_operations,
        !success ==> after.failed_operations == add_wrapping(before.failed_operations, 1)
            && after.successful_operations == before.successful_operations,
    ensures
        after.total_operations == after.successful_operations + after.failed_operations,
{
}

/// Options of asynchronous streaming.
#[derive(Debug, Clone)]
pub struct AsyncStreamOptions {
    pub buffer_size: usize,
    pub enable_progress: bool,
    pub progress_interval_ms: u64,
}

impl AsyncStreamOptions {
    /// A 64 KiB buffer, with progress reported every 100 ms.
    pub fn new() -> (o: Self)
        ensures
            o.buffer_size == 65536,
            o.enable_progress,
            o.progress_interval_ms == 100,
    {
        AsyncStreamOptions { buffer_size: 65536, enable_progress: true, progress_interval_ms: 100 }
    }

    /// Sets the buffer size.
    pub fn buffer_size(self, size: usize) -> (o: Self)
        ensures
            o.buffer_size == size,
            o.enable_progress == self.enable_progress,
            o.progress_interval_ms == self.progress_interval_ms,
    {
        AsyncStreamOptions { buffer_size: size, ..self }
    }

    /// Whether to report progress.
    pub fn enable_progress(self, enable: bool) -> (o: Self)
        ensures
            o.enable_progress == enable,
            o.buffer_size == self.buffer_size,
            o.progress_interval_ms == self.progress_interval_ms,
    {
        AsyncStreamOptions { enable_progress: enable, ..self }
    }

    /// Sets the time between progress reports.
    pub fn progress_interval_ms(self, interval: u64) -> (o: Self)
        ensures
            o.progress_interval_ms == interval,
            o.buffer_size == self.buffer_size,
            o.enable_progress == self.enable_progress,
    {
        AsyncStreamOptions { progress_interval_ms: interval, ..self }
    }
}

impl Default for AsyncStreamOptions {
    fn default() -> (o: Self)
        ensures
            o.buffer_size == 65536,
            o.enable_progress,
            o.progress_interval_ms == 100,
    {
        AsyncStreamOptions::new()
    }
}

/// The counts of an asynchronous batch.
#[derive(Debug, Clone)]
pub struct AsyncBatchResult {
    pub success_count: usize,
    pub failure_count: usize,
    pub total_count: usize,
}

/// Hit and miss counts of a cache.
#[derive(Debug, Clone)]
pub struct CacheCounters {
    pub hits: u64,
    pub misses: u64,
}

impl CacheCounters {
    /// No lookup yet.
    pub fn new() -> (c: Self)
        ensures
            c.hits == 0,
            c.misses == 0,
    {
        CacheCounters { hits: 0, misses: 0 }
    }

    /// Counts a lookup that found its key, or did not. The counters wrap
    /// around at 2^64.
    pub fn count(&mut self, hit: bool)
        ensures
            hit ==> final(self).hits == add_wrapping(old(self).hits, 1) && final(self).misses == old(self).misses,
            !hit ==> final(self).misses == add_wrapping(old(self).misses, 1) && final(self).hits == old(self).hits,
    {
        if hit {
            self.hits = wrapping_add_u64(self.hits, 1);
        } else {
            self.misses = wrapping_add_u64(self.misses, 1);
        }
    }

    /// Forgets all counts.
    pub fn reset(&mut self)
        ensures
            final(self).hits == 0,
            final(self).misses == 0,
    {
        self.hits = 0;
        self.misses = 0;
    }
}

} // verus!
