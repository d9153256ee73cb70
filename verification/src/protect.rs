//! Register write-protection protocol.
//!
//! Every watchdog peripheral guards its configuration registers behind a
//! write-protect register: writing the peripheral's magic unlock key opens
//! the registers, writing zero closes them again. The register models keep
//! the full sequence of keys written to the protect register, so that the
//! protocol itself is a stated, provable property: every operation appends
//! exactly one unlock immediately followed by one lock.

use vstd::prelude::*;

verus! {

/// Unlock key shared by the main RTC watchdog and the timer-group watchdogs.
pub const WDT_UNLOCK_KEY: u32 = 0x50D8_3AA1;

/// Unlock key of the super watchdog.
pub const SWD_UNLOCK_KEY: u32 = 0x8F1D_312A;

/// The value written to a protect register to lock it again.
pub const LOCK_KEY: u32 = 0;

/// A protect-register write log is well bracketed when it is a sequence of
/// unlock/lock pairs: every unlock is followed by exactly one lock before
/// the next unlock, and no stray write is ever issued.
pub open spec fn well_bracketed(log: Seq<u32>, unlock_key: u32) -> bool {
    &&& log.len() % 2 == 0
    &&& forall|i: int|
        0 <= i < log.len() ==> #[trigger] log[i] == if i % 2 == 0 {
            unlock_key
        } else {
            LOCK_KEY
        }
}

/// The empty log is well bracketed: before any operation runs, the protocol
/// holds vacuously.
pub proof fn lemma_bracketed_empty(unlock_key: u32)
    ensures
        well_bracketed(Seq::<u32>::empty(), unlock_key),
{
}

/// Every protected operation appends one unlock followed by one lock, and
/// that preserves bracketing. By induction, any sequence of protected
/// operations leaves the log well bracketed.
pub proof fn lemma_bracketed_extend(log: Seq<u32>, unlock_key: u32)
    requires
        well_bracketed(log, unlock_key),
    ensures
        well_bracketed(log + seq![unlock_key, LOCK_KEY], unlock_key),
{
    let ext = log + seq![unlock_key, LOCK_KEY];
    assert(ext.len() == log.len() + 2);
    assert forall|i: int| 0 <= i < ext.len() implies #[trigger] ext[i] == if i % 2 == 0 {
        unlock_key
    } else {
        LOCK_KEY
    } by {
        if i < log.len() {
            assert(ext[i] == log[i]);
        } else if i == log.len() {
            assert(ext[i] == unlock_key);
            assert(i % 2 == 0);
        } else {
            assert(ext[i] == LOCK_KEY);
            assert(i % 2 == 1);
        }
    }
}

/// A write-protect register together with the log of every key ever
/// written to it. The log is what makes the bracketing protocol an
/// observable, testable property of the register model.
pub struct ProtectReg {
    /// The key most recently written; the peripheral's configuration
    /// registers accept writes only while this equals the unlock key.
    pub wkey: u32,
    /// Every key written to this register, in order.
    pub writes: Vec<u32>,
}

impl ProtectReg {
    /// The sequence of keys written so far.
    pub open spec fn log(&self) -> Seq<u32> {
        self.writes@
    }

    /// Whether the peripheral's protected registers currently accept
    /// writes.
    pub open spec fn unlocked(&self, unlock_key: u32) -> bool {
        self.wkey == unlock_key
    }

    /// A protect register as it comes out of reset: locked, nothing
    /// written yet.
    pub fn new() -> (r: ProtectReg)
        ensures
            r.wkey == LOCK_KEY,
            r.log() == Seq::<u32>::empty(),
    {
        ProtectReg { wkey: LOCK_KEY, writes: Vec::new() }
    }

    /// Write a key to the protect register.
    pub fn write(&mut self, key: u32)
        ensures
            final(self).wkey == key,
            final(self).log() == old(self).log().push(key),
    {
        self.wkey = key;
        self.writes.push(key);
    }
}

/// In a well-bracketed log every unlock stands at an even position and the
/// very next entry is its matching lock.
pub proof fn lemma_bracketed_pairs(log: Seq<u32>, unlock_key: u32, i: int)
    requires
        well_bracketed(log, unlock_key),
        unlock_key != LOCK_KEY,
        0 <= i < log.len(),
        log[i] == unlock_key,
    ensures
        i % 2 == 0,
        i + 1 < log.len(),
        log[i + 1] == LOCK_KEY,
{
    if i % 2 != 0 {
        assert(log[i] == LOCK_KEY);
    }
    assert(i + 1 < log.len()) by {
        if i + 1 == log.len() {
            assert(log.len() % 2 == 1);
        }
    }
}

} // verus!
