//! Parking on a 32-bit atomic word. The functions here describe the futex
//! call that parks or wakes; the host makes the call. A wait may return
//! without any wake: callers check their condition again in a loop.
use vstd::prelude::*;

verus! {

/// The two futex operations that the primitive uses.
#[derive(Clone, Copy, Debug, PartialEq, Eq, Structural)]
pub enum FutexOp {
    /// Park the calling thread while the word holds the given value.
    Wait,
    /// Wake up to the given number of threads parked on the word.
    Wake,
}

/// One futex call, as plain values.
#[derive(Clone, Copy, Debug, PartialEq, Eq, Structural)]
pub struct FutexCall {
    /// The address of the atomic word. The kernel uses it as a key; a wake
    /// never reads through it, so it may dangle or be null there.
    pub addr: usize,
    pub op: FutexOp,
    /// Whether the word is private to this process.
    pub private: bool,
    /// For a wait, the value the word is expected to hold; for a wake, the
    /// largest number of threads to wake.
    pub val: u32,
}

/// The wake count that wakes every parked thread.
pub const WAKE_ALL: u32 = 0x7fff_ffff;

/// The call that parks on the word at `atomic` while it holds `value`.
pub open spec fn wait_call(atomic: usize, value: u32) -> FutexCall {
    FutexCall { addr: atomic, op: FutexOp::Wait, private: true, val: value }
}

/// The call that wakes up to `count` threads parked on the word at `atomic`.
pub open spec fn wake_call(atomic: usize, count: u32) -> FutexCall {
    FutexCall { addr: atomic, op: FutexOp::Wake, private: true, val: count }
}

/// What the kernel files parked threads under: the address of the word, and
/// whether the word is private to the process.
pub open spec fn key(call: FutexCall) -> (usize, bool) {
    (call.addr, call.private)
}

/// If the word at `atomic` holds `value`, wait until woken up. The wait has
/// no timeout.
pub fn wait(atomic: usize, value: u32) -> (call: FutexCall)
    ensures
        call == wait_call(atomic, value),
{
    FutexCall { addr: atomic, op: FutexOp::Wait, private: true, val: value }
}

/// Wake one thread that is waiting on the word at `atomic`.
pub fn wake_one(atomic: usize) -> (call: FutexCall)
    ensures
        call == wake_call(atomic, 1),
{
    FutexCall { addr: atomic, op: FutexOp::Wake, private: true, val: 1 }
}

/// Wake all threads that are waiting on the word at `atomic`.
pub fn wake_all(atomic: usize) -> (call: FutexCall)
    ensures
        call == wake_call(atomic, WAKE_ALL),
{
    FutexCall { addr: atomic, op: FutexOp::Wake, private: true, val: WAKE_ALL }
}

/// A wake reaches the threads that wait on the same word: the call that
/// parks on a word and a call that wakes on it name the same key.
pub proof fn lemma_wake_names_the_waiters_key(atomic: usize, value: u32, count: u32)
    ensures
        key(wake_call(atomic, count)) == key(wait_call(atomic, value)),
{
}

} // verus!
