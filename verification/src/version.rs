//! The version counter that filesystem-change notifications advance.
//!
//! The counter is a 16-bit unsigned integer that starts at zero and
//! wraps around after 65535. Every change event bumps it by one; the
//! `/hot` endpoint reports its current value, and a browser reloads
//! when the reported value differs from the one it recorded on load.

use vstd::prelude::*;

verus! {

/// Number of distinct counter values: the counter wraps at 2^16.
pub open spec fn version_modulus() -> nat {
    0x10000
}

/// The counter value after one more change event.
pub open spec fn next_version(v: nat) -> nat {
    (v + 1) % version_modulus()
}

/// The counter value after `k` change events starting from `v`,
/// bumping once per event.
pub open spec fn version_after(v: nat, k: nat) -> nat
    decreases k,
{
    if k == 0 {
        v % version_modulus()
    } else {
        next_version(version_after(v, (k - 1) as nat))
    }
}

/// Bumping once per event for `k` events lands on `(v + k) % 2^16`:
/// the reload signal is monotonic modulo the wraparound.
pub proof fn lemma_version_after_adds(v: nat, k: nat)
    ensures
        version_after(v, k) == (v + k) % version_modulus(),
    decreases k,
{
    if k > 0 {
        lemma_version_after_adds(v, (k - 1) as nat);
        let x: int = v + k - 1;
        let m: int = version_modulus() as int;
        assert(((x % m) + 1) % m == (x + 1) % m) by (nonlinear_arith)
            requires
                m > 0,
                x >= 0,
        ;
    }
}

/// A process-wide wrapping change counter.
///
/// The binary keeps one behind a lock shared by the watcher callback,
/// which bumps it, and the request handlers, which read it.
pub struct VersionCounter {
    value: u16,
}

impl VersionCounter {
    /// The mathematical value of the counter.
    pub closed spec fn view(&self) -> nat {
        self.value as nat
    }

    /// The counter starts at zero.
    pub fn new() -> (c: VersionCounter)
        ensures
            c@ == 0,
    {
        VersionCounter { value: 0 }
    }

    /// Record one change event: advance by one, wrapping at 2^16.
    pub fn bump(&mut self)
        ensures
            final(self)@ == next_version(old(self)@),
    {
        if self.value == 0xffff {
            self.value = 0;
        } else {
            self.value = self.value + 1;
        }
    }

    /// The current value, as reported by the `/hot` endpoint.
    pub fn current(&self) -> (v: u16)
        ensures
            v as nat == self@,
    {
        self.value
    }
}

} // verus!
