//! Persisted run-state store.
//!
//! A fixed memory region that survives a warm reset holds three fields: a
//! validity sentinel, the index of the next test to execute, and the number of
//! tests that have succeeded so far.  On a cold power-on the region holds
//! arbitrary bits; the sentinel equals [`SENTINEL_MAGIC`] if and only if an
//! unattended run is in progress, so garbage contents simply read as "no
//! active run".  This module models the region as a plain value that the host
//! loads from and stores to the durable region around every boot.

use vstd::prelude::*;

verus! {

/// The magic constant that distinguishes a valid persisted run state from
/// arbitrary memory contents left behind by a cold power-on.
pub const SENTINEL_MAGIC: u32 = 0x12345678;

/// Image of the persisted run-state memory region.
///
/// Any bit pattern is a legitimate value of this type: a cold power-on leaves
/// the region undefined, and the design copes by trusting the contents only
/// when `sentinel == SENTINEL_MAGIC`.
#[derive(Clone, Copy, PartialEq, Eq, Structural, Debug)]
pub struct RunState {
    /// Equals [`SENTINEL_MAGIC`] iff an unattended run is active.
    pub sentinel: u32,
    /// Index of the next test to execute in an unattended run.
    pub next_index: u8,
    /// Number of tests that have succeeded in the current unattended run.
    pub success_count: u8,
}

impl RunState {
    /// A run is active iff the sentinel holds the magic constant.  This is
    /// the single source of truth for "is a run active".
    pub open spec fn active(self) -> bool {
        self.sentinel == SENTINEL_MAGIC
    }

    /// The store invariant while a run over `n` tests is active: the success
    /// counter never exceeds the next-test index, which never exceeds the
    /// number of registered tests.
    pub open spec fn wf(self, n: int) -> bool {
        self.active() ==> self.success_count <= self.next_index <= n
    }

    /// Marks a run as active and resets the success counter.  The next-test
    /// index is deliberately left untouched; the caller sets it separately.
    pub fn activate(&mut self)
        ensures
            final(self).sentinel == SENTINEL_MAGIC,
            final(self).active(),
            final(self).success_count == 0,
            final(self).next_index == old(self).next_index,
    {
        self.sentinel = SENTINEL_MAGIC;
        self.success_count = 0;
    }

    /// Clears the sentinel, ending the active run.  The counters keep their
    /// last values; they are meaningless once the sentinel is gone.
    pub fn deactivate(&mut self)
        ensures
            final(self).sentinel == 0,
            !final(self).active(),
            final(self).next_index == old(self).next_index,
            final(self).success_count == old(self).success_count,
    {
        self.sentinel = 0;
    }

    /// Compares the sentinel to the magic constant.
    pub fn is_active(&self) -> (r: bool)
        ensures
            r == self.active(),
    {
        self.sentinel == SENTINEL_MAGIC
    }

    /// Reads the index of the next test to execute.
    pub fn get_next_test(&self) -> (r: u8)
        ensures
            r == self.next_index,
    {
        self.next_index
    }

    /// Stores the index of the next test to execute.
    pub fn set_next_test(&mut self, index: u8)
        ensures
            final(self).next_index == index,
            final(self).sentinel == old(self).sentinel,
            final(self).success_count == old(self).success_count,
    {
        self.next_index = index;
    }

    /// Records one more successful test.
    pub fn test_succeeded(&mut self)
        requires
            old(self).success_count < 255,
        ensures
            final(self).success_count == old(self).success_count + 1,
            final(self).sentinel == old(self).sentinel,
            final(self).next_index == old(self).next_index,
    {
        self.success_count = self.success_count + 1;
    }

    /// Reads the cumulative success counter.
    pub fn get_success_count(&self) -> (r: u8)
        ensures
            r == self.success_count,
    {
        self.success_count
    }
}

} // verus!
