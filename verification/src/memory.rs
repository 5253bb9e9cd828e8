//! Keeping memory in bounds: a queue that holds no more than a fixed number
//! of entries, and a tally of allocations that is compared with a budget.

use crate::history::bounded_tail;
use crate::time::{span_between, Duration, Timestamp};
use vstd::prelude::*;

verus! {

/// How the tallied use of memory stands to the budget.
#[derive(Clone, Copy, Debug, PartialEq, Eq, Structural)]
pub enum MemoryStatus {
    Normal,
    Warning,
    Critical,
}

/// Bytes that one tallied allocation is taken to hold.
pub const BYTES_PER_ALLOCATION: usize = 1024;

/// Bytes in one megabyte.
pub const BYTES_PER_MEGABYTE: usize = 1048576;

/// Seconds between two checks of the memory use.
pub const CHECK_INTERVAL_SECS: u64 = 30;

/// The product of two numbers, or the largest number where that is more.
pub open spec fn capped_product(a: usize, b: usize) -> usize {
    if a * b > usize::MAX {
        usize::MAX
    } else {
        (a * b) as usize
    }
}

/// The count after one more, starting over at zero after the largest.
pub open spec fn wrapped_next(count: usize) -> usize {
    if count == usize::MAX {
        0
    } else {
        (count + 1) as usize
    }
}

/// The difference of two counts, or zero where the second is larger.
pub open spec fn net_of(allocations: usize, deallocations: usize) -> usize {
    if allocations >= deallocations {
        (allocations - deallocations) as usize
    } else {
        0
    }
}

/// The bytes in use as the tally estimates them: 1024 for each allocation
/// that was not given back.
pub open spec fn estimated_usage(allocations: usize, deallocations: usize) -> usize {
    capped_product(net_of(allocations, deallocations), BYTES_PER_ALLOCATION)
}

/// Whether `usage` bytes are at least `permille` thousandths of `budget`
/// bytes.  Nothing is a share of an empty budget.
pub open spec fn reaches(usage: usize, budget: usize, permille: u32) -> bool {
    (budget > 0 || usage > 0) && usage * 1000 >= permille * budget
}

/// How `usage` bytes stand to a budget with the given thresholds.
pub open spec fn status_of(usage: usize, budget: usize, warning: u32, critical: u32) -> MemoryStatus {
    if reaches(usage, budget, critical) {
        MemoryStatus::Critical
    } else if reaches(usage, budget, warning) {
        MemoryStatus::Warning
    } else {
        MemoryStatus::Normal
    }
}

/// The product of two numbers, or the largest number where that is more.
pub fn capped_mul(a: usize, b: usize) -> (product: usize)
    ensures
        product == capped_product(a, b),
{
    if b == 0 {
        return 0;
    }
    if a > usize::MAX / b {
        assert(a * b > usize::MAX) by (nonlinear_arith)
            requires
                a > (usize::MAX as int) / (b as int),
                b > 0,
        ;
        usize::MAX
    } else {
        assert(a * b <= usize::MAX) by (nonlinear_arith)
            requires
                a <= (usize::MAX as int) / (b as int),
                b > 0,
        ;
        a * b
    }
}

/// Whether `usage` bytes are at least `permille` thousandths of `budget`
/// bytes.
pub fn usage_reaches(usage: usize, budget: usize, permille: u32) -> (reached: bool)
    ensures
        reached == reaches(usage, budget, permille),
{
    if budget == 0 && usage == 0 {
        return false;
    }
    let scaled: u128 = (usage as u128) * 1000;
    assert((permille as u128) * (budget as u128) <= 0xffff_ffff * 0xffff_ffff_ffff_ffff)
        by (nonlinear_arith)
        requires
            permille <= 0xffff_ffff,
            budget <= 0xffff_ffff_ffff_ffff,
    ;
    let share: u128 = (permille as u128) * (budget as u128);
    scaled >= share
}

/// What the tally knows.
#[derive(Clone, Copy, Debug, PartialEq, Eq, Structural)]
pub struct MemoryStats {
    pub current_usage_bytes: usize,
    pub peak_usage_bytes: usize,
    pub max_allowed_bytes: usize,
    pub allocations: usize,
    pub deallocations: usize,
    pub net_allocations: usize,
    pub cleanup_operations: u64,
    /// The share of the budget, in thousandths, from which the use is high.
    pub warning_permille: u32,
    /// The share of the budget, in thousandths, from which the use is
    /// critical.
    pub critical_permille: u32,
}

impl MemoryStats {
    /// The use in thousandths of the budget, cut to the largest number; zero
    /// for an empty budget.
    pub fn usage_permille(&self) -> (share: u128)
        ensures
            share == if self.max_allowed_bytes == 0 {
                0
            } else {
                self.current_usage_bytes * 1000 / (self.max_allowed_bytes as int)
            },
    {
        if self.max_allowed_bytes == 0 {
            0
        } else {
            (self.current_usage_bytes as u128) * 1000 / (self.max_allowed_bytes as u128)
        }
    }

    /// The peak use in thousandths of the budget; zero for an empty budget.
    pub fn peak_usage_permille(&self) -> (share: u128)
        ensures
            share == if self.max_allowed_bytes == 0 {
                0
            } else {
                self.peak_usage_bytes * 1000 / (self.max_allowed_bytes as int)
            },
    {
        if self.max_allowed_bytes == 0 {
            0
        } else {
            (self.peak_usage_bytes as u128) * 1000 / (self.max_allowed_bytes as u128)
        }
    }

    /// Whether the use has reached the warning threshold.
    pub fn is_above_warning(&self) -> (above: bool)
        ensures
            above == reaches(
                self.current_usage_bytes,
                self.max_allowed_bytes,
                self.warning_permille,
            ),
    {
        usage_reaches(self.current_usage_bytes, self.max_allowed_bytes, self.warning_permille)
    }

    /// Whether the use has reached the critical threshold.
    pub fn is_critical(&self) -> (critical: bool)
        ensures
            critical == reaches(
                self.current_usage_bytes,
                self.max_allowed_bytes,
                self.critical_permille,
            ),
    {
        usage_reaches(self.current_usage_bytes, self.max_allowed_bytes, self.critical_permille)
    }
}

/// A tally of allocations with a budget.
#[derive(Debug)]
pub struct MemoryManager {
    max_memory_mb: usize,
    warning_permille: u32,
    critical_permille: u32,
    last_check: Timestamp,
    check_interval: Duration,
    allocations: usize,
    deallocations: usize,
    peak_usage: usize,
    cleanup_count: u64,
}

/// The tally as a value.
pub struct MemoryManagerView {
    pub max_memory_mb: usize,
    pub warning_permille: u32,
    pub critical_permille: u32,
    pub last_check: Timestamp,
    pub check_interval: Duration,
    pub allocations: usize,
    pub deallocations: usize,
    pub peak_usage: usize,
    pub cleanup_count: u64,
}

impl MemoryManagerView {
    /// The budget in bytes.
    pub open spec fn budget(self) -> usize {
        capped_product(capped_product(self.max_memory_mb, 1024), 1024)
    }

    /// The bytes in use as the tally estimates them.
    pub open spec fn usage(self) -> usize {
        estimated_usage(self.allocations, self.deallocations)
    }

    /// What the tally knows.
    pub open spec fn stats(self) -> MemoryStats {
        MemoryStats {
            current_usage_bytes: self.usage(),
            peak_usage_bytes: self.peak_usage,
            max_allowed_bytes: self.budget(),
            allocations: self.allocations,
            deallocations: self.deallocations,
            net_allocations: net_of(self.allocations, self.deallocations),
            cleanup_operations: self.cleanup_count,
            warning_permille: self.warning_permille,
            critical_permille: self.critical_permille,
        }
    }

    /// Whether a check at the time `now` is due: the check interval has
    /// passed since the last one.
    pub open spec fn check_due(self, now: Timestamp) -> bool {
        span_between(now, self.last_check).nanos >= self.check_interval.nanos
    }

    /// The tally and the answer after a check at the time `now`.  A check
    /// that is not due changes nothing and answers `Normal`.  One that is
    /// due notes the time, raises the peak to the use where the use is
    /// higher, and answers how the use stands to the thresholds.
    pub open spec fn checked(self, now: Timestamp) -> (MemoryManagerView, MemoryStatus) {
        if self.check_due(now) {
            (
                MemoryManagerView {
                    last_check: now,
                    peak_usage: if self.usage() > self.peak_usage {
                        self.usage()
                    } else {
                        self.peak_usage
                    },
                    ..self
                },
                status_of(
                    self.usage(),
                    self.budget(),
                    self.warning_permille,
                    self.critical_permille,
                ),
            )
        } else {
            (self, MemoryStatus::Normal)
        }
    }
}

/// The thresholds that are set for a wish of `warning` and `critical`
/// thousandths: each is cut to a thousand, and a warning threshold that
/// does not lie below the critical one is put a hundred below it, or at zero.
pub open spec fn settled_thresholds(warning: u32, critical: u32) -> (u32, u32) {
    let high = if critical > 1000 {
        1000u32
    } else {
        critical
    };
    let low = if warning > 1000 {
        1000u32
    } else {
        warning
    };
    if low >= high {
        (
            if high >= 100 {
                (high - 100) as u32
            } else {
                0u32
            },
            high,
        )
    } else {
        (low, high)
    }
}

impl View for MemoryManager {
    type V = MemoryManagerView;

    closed spec fn view(&self) -> MemoryManagerView {
        MemoryManagerView {
            max_memory_mb: self.max_memory_mb,
            warning_permille: self.warning_permille,
            critical_permille: self.critical_permille,
            last_check: self.last_check,
            check_interval: self.check_interval,
            allocations: self.allocations,
            deallocations: self.deallocations,
            peak_usage: self.peak_usage,
            cleanup_count: self.cleanup_count,
        }
    }
}

impl MemoryManager {
    /// A tally with a budget of `max_memory_mb` megabytes, made at the time
    /// `now`: nothing is tallied, and the use is high from 800 and critical
    /// from 950 thousandths of the budget.
    pub fn new_at(max_memory_mb: usize, now: Timestamp) -> (manager: MemoryManager)
        ensures
            manager@ == (MemoryManagerView {
                max_memory_mb,
                warning_permille: 800,
                critical_permille: 950,
                last_check: now,
                check_interval: Duration { nanos: 30_000_000_000 },
                allocations: 0,
                deallocations: 0,
                peak_usage: 0,
                cleanup_count: 0,
            }),
    {
        MemoryManager {
            max_memory_mb,
            warning_permille: 800,
            critical_permille: 950,
            last_check: now,
            check_interval: Duration::from_secs(CHECK_INTERVAL_SECS),
            allocations: 0,
            deallocations: 0,
            peak_usage: 0,
            cleanup_count: 0,
        }
    }

    /// A tally with a budget of `max_memory_mb` megabytes, made now.
    pub fn new(max_memory_mb: usize) -> (manager: MemoryManager)
        ensures
            manager@ == (MemoryManagerView {
                last_check: manager@.last_check,
                ..(MemoryManagerView {
                    max_memory_mb,
                    warning_permille: 800,
                    critical_permille: 950,
                    last_check: manager@.last_check,
                    check_interval: Duration { nanos: 30_000_000_000 },
                    allocations: 0,
                    deallocations: 0,
                    peak_usage: 0,
                    cleanup_count: 0,
                })
            }),
    {
        MemoryManager::new_at(max_memory_mb, Timestamp::now())
    }

    fn budget(&self) -> (bytes: usize)
        ensures
            bytes == self@.budget(),
    {
        capped_mul(capped_mul(self.max_memory_mb, 1024), 1024)
    }

    fn get_estimated_usage(&self) -> (bytes: usize)
        ensures
            bytes == self@.usage(),
    {
        capped_mul(self.allocations.saturating_sub(self.deallocations), BYTES_PER_ALLOCATION)
    }

    /// Checks the use of memory at the time `now`.  Before the check
    /// interval has passed since the last check, nothing is looked at and
    /// the answer is `Normal`.  Else the time is noted, the peak is raised
    /// to the use where the use is higher, and the use is held against the
    /// thresholds.
    pub fn check_memory_usage_at(&mut self, now: Timestamp) -> (status: MemoryStatus)
        ensures
            (final(self)@, status) == old(self)@.checked(now),
    {
        if now.duration_since(&self.last_check).nanos < self.check_interval.nanos {
            return MemoryStatus::Normal;
        }
        self.last_check = now;
        let usage = self.get_estimated_usage();
        let budget = self.budget();
        if usage > self.peak_usage {
            self.peak_usage = usage;
        }
        if usage_reaches(usage, budget, self.critical_permille) {
            MemoryStatus::Critical
        } else if usage_reaches(usage, budget, self.warning_permille) {
            MemoryStatus::Warning
        } else {
            MemoryStatus::Normal
        }
    }

    /// Checks the use of memory, with the time read off the system clock.
    pub fn check_memory_usage(&mut self) -> (status: MemoryStatus)
        ensures
            exists|now: Timestamp| (final(self)@, status) == old(self)@.checked(now),
    {
        let now = Timestamp::now();
        let status = self.check_memory_usage_at(now);
        assert((self@, status) == old(self)@.checked(now));
        status
    }

    /// What the tally knows.
    pub fn get_memory_stats(&self) -> (stats: MemoryStats)
        ensures
            stats == self@.stats(),
    {
        MemoryStats {
            current_usage_bytes: self.get_estimated_usage(),
            peak_usage_bytes: self.peak_usage,
            max_allowed_bytes: self.budget(),
            allocations: self.allocations,
            deallocations: self.deallocations,
            net_allocations: self.allocations.saturating_sub(self.deallocations),
            cleanup_operations: self.cleanup_count,
            warning_permille: self.warning_permille,
            critical_permille: self.critical_permille,
        }
    }

    /// Tallies one allocation.
    pub fn record_allocation(&mut self, size: usize)
        ensures
            final(self)@ == (MemoryManagerView {
                allocations: wrapped_next(old(self)@.allocations),
                ..old(self)@
            }),
    {
        self.allocations = self.allocations.wrapping_add(1);
    }

    /// Tallies one allocation given back.
    pub fn record_deallocation(&mut self, size: usize)
        ensures
            final(self)@ == (MemoryManagerView {
                deallocations: wrapped_next(old(self)@.deallocations),
                ..old(self)@
            }),
    {
        self.deallocations = self.deallocations.wrapping_add(1);
    }

    /// Tallies one cleanup.
    pub fn trigger_cleanup(&mut self)
        ensures
            final(self)@ == (MemoryManagerView {
                cleanup_count: if old(self)@.cleanup_count == u64::MAX {
                    0
                } else {
                    (old(self)@.cleanup_count + 1) as u64
                },
                ..old(self)@
            }),
    {
        self.cleanup_count = self.cleanup_count.wrapping_add(1);
    }

    /// Sets the thresholds, in thousandths of the budget.
    pub fn set_thresholds(&mut self, warning: u32, critical: u32)
        ensures
            final(self)@ == (MemoryManagerView {
                warning_permille: settled_thresholds(warning, critical).0,
                critical_permille: settled_thresholds(warning, critical).1,
                ..old(self)@
            }),
    {
        let high: u32 = if critical > 1000 {
            1000
        } else {
            critical
        };
        let low: u32 = if warning > 1000 {
            1000
        } else {
            warning
        };
        self.critical_permille = high;
        self.warning_permille = if low >= high {
            if high >= 100 {
                high - 100
            } else {
                0
            }
        } else {
            low
        };
    }
}

/// The count after `steps` more, starting over at zero after the largest.
pub open spec fn wrapped_steps(count: usize, steps: nat) -> usize
    decreases steps,
{
    if steps == 0 {
        count
    } else {
        wrapped_next(wrapped_steps(count, (steps - 1) as nat))
    }
}

/// The number of entries that a queue of `len` entries lets go when one
/// more is entered under the limit `limit`.
pub open spec fn let_go(len: nat, limit: nat) -> nat {
    if len + 1 > limit {
        (len + 1 - limit) as nat
    } else {
        0
    }
}

/// The tally after an entry has come in and `gone` entries have been let go.
pub open spec fn tallied(tally: Option<MemoryManagerView>, came: bool, gone: nat) -> Option<
    MemoryManagerView,
> {
    match tally {
        Some(tally) => Some(
            MemoryManagerView {
                allocations: if came {
                    wrapped_next(tally.allocations)
                } else {
                    tally.allocations
                },
                deallocations: wrapped_steps(tally.deallocations, gone),
                ..tally
            },
        ),
        None => None,
    }
}

/// A queue that holds no more than a fixed number of entries: a new entry
/// beyond that lets the oldest one go.  The queue can keep a tally of the
/// entries that come and go.
#[derive(Debug)]
pub struct BoundedVec<T> {
    data: Vec<T>,
    max_size: usize,
    memory_manager: Option<MemoryManager>,
}

/// A bounded queue as a value.
pub struct BoundedVecView<T> {
    /// The entries, oldest first.
    pub entries: Seq<T>,
    /// The most entries that the queue holds.
    pub limit: usize,
    /// The tally that the queue keeps, if it keeps one.
    pub tally: Option<MemoryManagerView>,
}

impl<T> View for BoundedVec<T> {
    type V = BoundedVecView<T>;

    closed spec fn view(&self) -> BoundedVecView<T> {
        BoundedVecView {
            entries: self.data@,
            limit: self.max_size,
            tally: match self.memory_manager {
                Some(manager) => Some(manager@),
                None => None,
            },
        }
    }
}

impl<T> BoundedVec<T> {
    /// An empty queue for at most `max_size` entries, without a tally.
    pub fn new(max_size: usize) -> (queue: BoundedVec<T>)
        ensures
            queue@ == (BoundedVecView { entries: Seq::<T>::empty(), limit: max_size, tally: None }),
    {
        BoundedVec { data: Vec::new(), max_size, memory_manager: None }
    }

    /// An empty queue for at most `max_size` entries that tallies in
    /// `memory_manager` the entries that come and go.
    pub fn with_memory_manager(max_size: usize, memory_manager: MemoryManager) -> (queue:
        BoundedVec<T>)
        ensures
            queue@ == (BoundedVecView {
                entries: Seq::<T>::empty(),
                limit: max_size,
                tally: Some(memory_manager@),
            }),
    {
        BoundedVec { data: Vec::new(), max_size, memory_manager: Some(memory_manager) }
    }

    /// The tally that the queue keeps, if it keeps one.
    pub fn memory_manager(&self) -> (manager: Option<&MemoryManager>)
        ensures
            match manager {
                Some(manager) => self@.tally == Some(manager@),
                None => self@.tally is None,
            },
    {
        self.memory_manager.as_ref()
    }

    /// Enters `item` as the newest entry and lets the oldest entries beyond
    /// the limit go.  Where the queue keeps a tally, the entry is tallied
    /// as an allocation and each entry that goes as an allocation given
    /// back.
    pub fn push(&mut self, item: T)
        ensures
            final(self)@ == (BoundedVecView {
                entries: bounded_tail(old(self)@.entries.push(item), old(self)@.limit as nat),
                tally: tallied(
                    old(self)@.tally,
                    true,
                    let_go(old(self)@.entries.len(), old(self)@.limit as nat),
                ),
                ..old(self)@
            }),
    {
        let size = core::mem::size_of::<T>();
        if let Some(manager) = &mut self.memory_manager {
            manager.record_allocation(size);
        }
        self.data.push(item);
        let ghost gone: nat = 0;
        while self.data.len() > self.max_size
            invariant
                self.max_size == old(self).max_size,
                self.data@.len() <= old(self).data@.len() + 1,
                self.data@ == old(self).data@.push(item).subrange(
                    old(self).data@.len() + 1 - self.data@.len(),
                    old(self).data@.len() as int + 1,
                ),
                self.data@.len() >= self.max_size || self.data@.len() == old(self).data@.len()
                    + 1,
                gone == old(self).data@.len() + 1 - self.data@.len(),
                self@.tally == tallied(old(self)@.tally, true, gone),
            decreases self.data.len(),
        {
            self.data.remove(0);
            if let Some(manager) = &mut self.memory_manager {
                manager.record_deallocation(size);
            }
            proof {
                gone = gone + 1;
            }
            assert(self.data@ =~= old(self).data@.push(item).subrange(
                old(self).data@.len() + 1 - self.data@.len(),
                old(self).data@.len() as int + 1,
            ));
        }
        assert(self.data@ =~= bounded_tail(old(self)@.entries.push(item), self.max_size as nat));
    }

    /// The number of entries.
    pub fn len(&self) -> (n: usize)
        ensures
            n == self@.entries.len(),
    {
        self.data.len()
    }

    /// Whether the queue holds no entry.
    pub fn is_empty(&self) -> (empty: bool)
        ensures
            empty == (self@.entries.len() == 0),
    {
        self.data.len() == 0
    }

    /// The most entries that the queue holds.
    pub fn max_size(&self) -> (limit: usize)
        ensures
            limit == self@.limit,
    {
        self.max_size
    }

    /// The entry at place `index`, counted from the oldest.
    pub fn get(&self, index: usize) -> (entry: Option<&T>)
        ensures
            match entry {
                Some(entry) => index < self@.entries.len() && *entry == self@.entries[index as int],
                None => index >= self@.entries.len(),
            },
    {
        if index < self.data.len() {
            Some(&self.data[index])
        } else {
            None
        }
    }

    /// Lets all entries go.  Where the queue keeps a tally, this is tallied
    /// as one allocation given back.
    pub fn clear(&mut self)
        ensures
            final(self)@ == (BoundedVecView {
                entries: Seq::<T>::empty(),
                tally: tallied(old(self)@.tally, false, 1),
                ..old(self)@
            }),
    {
        let freed = capped_mul(self.data.len(), core::mem::size_of::<T>());
        if let Some(manager) = &mut self.memory_manager {
            manager.record_deallocation(freed);
        }
        self.data.clear();
        proof {
            if old(self)@.tally is Some {
                let before = old(self)@.tally.unwrap().deallocations;
                assert(wrapped_steps(before, 0) == before);
                assert(wrapped_steps(before, 1) == wrapped_next(wrapped_steps(before, 0)));
            }
        }
    }

    /// The entries, oldest first.
    pub fn as_slice(&self) -> (entries: &[T])
        ensures
            entries@ == self@.entries,
    {
        self.data.as_slice()
    }

    /// The entries, oldest first, for changing them in place.
    pub fn as_mut_slice(&mut self) -> (entries: &mut [T])
        ensures
            entries@ == old(self)@.entries,
            final(self)@ == (BoundedVecView { entries: final(entries)@, ..old(self)@ }),
    {
        self.data.as_mut_slice()
    }

    /// The number of entries that the queue has room for without asking for
    /// more memory.
    pub fn capacity(&self) -> (room: usize) {
        storage_capacity(&self.data)
    }

    /// Gives unused room back.  The entries stay as they are.
    pub fn shrink_to_fit(&mut self)
        ensures
            final(self)@ == old(self)@,
    {
        shrink_storage(&mut self.data);
    }
}

/// Reads how many entries a vector has room for, through `Vec::capacity`.
/// The number depends on the allocator; nothing is claimed about it.
#[verifier::external_body]
fn storage_capacity<T>(storage: &Vec<T>) -> (room: usize) {
    storage.capacity()
}

/// Gives unused room of a vector back through `Vec::shrink_to_fit`, which
/// keeps the entries and their order.
#[verifier::external_body]
fn shrink_storage<T>(storage: &mut Vec<T>)
    ensures
        final(storage)@ == old(storage)@,
{
    storage.shrink_to_fit()
}

} // verus!
