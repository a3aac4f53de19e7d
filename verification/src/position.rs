//! The shared Position register and the seek handshake.
//!
//! Control thread and callback thread never share a lock.  They coordinate
//! through one atomic timestamp register holding the next timestamp the
//! callback should be playing.  The control thread requests a seek with a
//! plain store; the callback attempts, at every packet boundary, a
//! compare-and-swap from the packet's start timestamp to the timestamp one
//! past its end.  A failed swap means a seek target was stored meanwhile,
//! and the failure value *is* that target.
//!
//! Because the register is shared, nothing can be promised about the value a
//! load or a swap observes — another thread may have written in between.
//! The handshake itself is therefore stated over a one-word register model
//! (`spec_store`, `spec_cas`) describing one interleaving: a store followed
//! by the callback's next compare-and-swap.

use vstd::prelude::*;

verus! {

/// The shared Position register: the single word through which the control
/// thread and the callback thread coordinate.  Verus refuses a declaration
/// of `atomig::Atomic<T>` (its `T: Atom` bound names an outside trait), so
/// the atomic is held opaquely and each operation below is a trusted call.
#[verifier::external_body]
pub struct PositionRegister {
    cell: atomig::Atomic<u64>,
}

impl PositionRegister {
    /// Relies on atomig::Atomic::new: creates the atomic holding `initial`,
    /// the track's starting timestamp.
    #[verifier::external_body]
    pub fn new(initial: u64) -> (r: PositionRegister) {
        PositionRegister { cell: atomig::Atomic::new(initial) }
    }

    /// Relies on atomig::Atomic::store, which delegates to
    /// std::sync::atomic::AtomicU64::store; sequentially consistent, never
    /// panics with this ordering.  Other threads may overwrite the word at
    /// any time, so nothing is stated about later loads.
    #[verifier::external_body]
    fn store(&self, value: u64) {
        self.cell.store(value, atomig::Ordering::SeqCst);
    }

    /// Control thread: request a seek by storing the target timestamp.
    /// Unconditional single-word write; no further synchronization is
    /// needed on the write side.
    pub fn seek_to(&self, target: u64) {
        self.store(target);
    }

    /// Non-blocking read of the position, for progress display.  Relies on
    /// atomig::Atomic::load, which delegates to
    /// std::sync::atomic::AtomicU64::load; sequentially consistent, never
    /// panics with this ordering.  The value observed depends on the other
    /// thread, so nothing more can be stated of it.
    #[verifier::external_body]
    fn load(&self) -> u64 {
        self.cell.load(atomig::Ordering::SeqCst)
    }

    /// Relies on atomig::Atomic::compare_exchange, which delegates to
    /// std::sync::atomic::AtomicU64::compare_exchange: on success the
    /// returned previous value is guaranteed equal to `expected`; on
    /// failure the swap did not happen because the observed value differed
    /// from `expected`.
    #[verifier::external_body]
    fn compare_exchange(&self, expected: u64, next: u64) -> (r: Result<u64, u64>)
        ensures
            (r matches Ok(prev) ==> prev == expected),
            (r matches Err(observed) ==> observed != expected),
    {
        self.cell.compare_exchange(
            expected,
            next,
            atomig::Ordering::SeqCst,
            atomig::Ordering::Acquire,
        )
    }

    /// Non-blocking read of the position, for progress display.
    pub fn current_position(&self) -> u64 {
        self.load()
    }

    /// Callback thread, at a packet boundary: try to advance the register
    /// from the packet's start timestamp to `next` (one past its end).
    /// `None` means the register still held the packet's timestamp — no
    /// seek is pending and the register now marks the next expected packet.
    /// `Some(target)` means a seek target was stored meanwhile; the target
    /// never equals the packet's own start timestamp.
    pub fn advance_or_detect(&self, packet_ts: u64, next: u64) -> (r: Option<u64>)
        ensures
            (r matches Some(target) ==> target != packet_ts),
    {
        match self.compare_exchange(packet_ts, next) {
            Ok(_) => None,
            Err(target) => Some(target),
        }
    }
}

/// Register model: the value after the control thread stores a seek target.
pub open spec fn spec_store(value: u64, target: u64) -> u64 {
    target
}

/// Register model: one compare-and-swap on a register holding `value`.
/// Returns the register's value afterwards and the result the caller sees:
/// success hands back `expected` and advances the register to `next`;
/// failure hands back the observed value and changes nothing.
pub open spec fn spec_cas(value: u64, expected: u64, next: u64) -> (u64, Result<u64, u64>) {
    if value == expected {
        (next, Ok(expected))
    } else {
        (value, Err(value))
    }
}

/// Seeking to the value the register already holds — the timestamp of the
/// packet the callback will check next — leaves that compare-and-swap
/// successful: the callback sees no seek, resets nothing, and playback
/// continues without discontinuity.
pub proof fn lemma_seek_to_current_is_silent(value: u64, next: u64)
    ensures
        spec_cas(spec_store(value, value), value, next).1 == Ok::<u64, u64>(value),
        spec_cas(spec_store(value, value), value, next).0 == next,
{
}

/// Seeking anywhere else is detected at the very next packet boundary: the
/// compare-and-swap fails exactly once, handing the callback the seek
/// target, and leaves the target in the register for the re-synchronized
/// stream to advance from.
pub proof fn lemma_seek_is_detected(value: u64, target: u64, next: u64)
    requires
        target != value,
    ensures
        spec_cas(spec_store(value, target), value, next).1 == Err::<u64, u64>(target),
        spec_cas(spec_store(value, target), value, next).0 == target,
{
}

} // verus!
