//! The counter that tells when the last expected page has been written.

use vstd::prelude::*;

verus! {

/// Counts the pages written in one export and fires once, when their number
/// reaches the expected one. Firing puts the count back to zero, so that the
/// counter can serve a later export.
///
/// A completion is recorded through `&mut self`: counting and comparing are one
/// step that no other caller can come between, in whatever order the pages
/// finish.
#[derive(Clone, Copy, Debug, PartialEq, Eq, Structural)]
pub struct CompletionGate {
    count: u64,
    expected: u64,
}

impl CompletionGate {
    /// The pages recorded since the counter was made or last fired.
    pub closed spec fn count(self) -> nat {
        self.count as nat
    }

    /// The number of pages at which the counter fires.
    pub closed spec fn expected(self) -> nat {
        self.expected as nat
    }

    /// The counter waits for at least one page and has seen fewer than it waits
    /// for.
    pub open spec fn wf(self) -> bool {
        self.count() < self.expected()
    }

    /// The counter after one more page: back at zero where that page was the last
    /// expected one.
    pub open spec fn recorded(self) -> CompletionGate
        recommends
            self.wf(),
    {
        if self.fires() {
            self.reset()
        } else {
            self.bumped()
        }
    }

    /// Whether the next page is the last expected one.
    pub open spec fn fires(self) -> bool {
        self.count() + 1 == self.expected()
    }

    /// The counter of an export of `expected` pages of which none is written.
    pub closed spec fn fresh(expected: u64) -> CompletionGate {
        CompletionGate { count: 0, expected }
    }

    /// The same counter with nothing counted.
    pub closed spec fn reset(self) -> CompletionGate {
        CompletionGate { count: 0, expected: self.expected }
    }

    /// The same counter with one page more, short of the expected number.
    pub closed spec fn bumped(self) -> CompletionGate
        recommends
            self.count() + 1 < self.expected(),
    {
        CompletionGate { count: (self.count + 1) as u64, expected: self.expected }
    }

    /// The counter after `n` further pages.
    pub open spec fn after(self, n: nat) -> CompletionGate
        decreases n,
    {
        if n == 0 {
            self
        } else {
            self.after((n - 1) as nat).recorded()
        }
    }

    /// How often the counter fires in the course of `n` further pages.
    pub open spec fn fired(self, n: nat) -> nat
        decreases n,
    {
        if n == 0 {
            0
        } else {
            self.fired((n - 1) as nat) + if self.after((n - 1) as nat).fires() {
                1nat
            } else {
                0nat
            }
        }
    }

    /// What `reset` and `bumped` do to the two numbers.
    pub proof fn lemma_recorded(self)
        requires
            self.wf(),
        ensures
            self.recorded().wf(),
            self.recorded().expected() == self.expected(),
            self.recorded().count() == if self.fires() {
                0nat
            } else {
                self.count() + 1
            },
    {
    }

    /// What a fresh counter holds.
    pub proof fn lemma_fresh(expected: u64)
        ensures
            Self::fresh(expected).count() == 0,
            Self::fresh(expected).expected() == expected,
    {
    }

    /// A counter for an export of `expected` pages, with nothing counted yet.
    pub fn new(expected: u64) -> (gate: CompletionGate)
        requires
            expected >= 1,
        ensures
            gate == Self::fresh(expected),
            gate.wf(),
            gate.count() == 0,
            gate.expected() == expected,
    {
        CompletionGate { count: 0, expected }
    }

    /// The number of pages recorded since the counter was made or last fired.
    pub fn pending(&self) -> (n: u64)
        ensures
            n == self.count(),
    {
        self.count
    }

    /// The number of pages at which the counter fires.
    pub fn threshold(&self) -> (n: u64)
        ensures
            n == self.expected(),
    {
        self.expected
    }

    /// Records that one more page has been written. Returns `true` exactly when
    /// this page brings the count to the expected number: the caller then owes
    /// the compression, and the count is back at zero.
    pub fn record_completion(&mut self) -> (fire: bool)
        requires
            old(self).wf(),
        ensures
            fire == old(self).fires(),
            *final(self) == old(self).recorded(),
            final(self).wf(),
            final(self).expected() == old(self).expected(),
            final(self).count() == if fire {
                0nat
            } else {
                old(self).count() + 1
            },
    {
        let reached: u64 = self.count + 1;
        if reached == self.expected {
            self.count = 0;
            true
        } else {
            self.count = reached;
            false
        }
    }
}

/// Before the expected number of pages a fresh counter has not fired, and it has
/// counted each of them.
pub proof fn lemma_gate_waits(gate: CompletionGate, n: nat)
    requires
        gate.wf(),
        gate.count() == 0,
        n < gate.expected(),
    ensures
        gate.fired(n) == 0,
        gate.after(n).count() == n,
        gate.after(n).expected() == gate.expected(),
        gate.after(n).wf(),
    decreases n,
{
    if n > 0 {
        lemma_gate_waits(gate, (n - 1) as nat);
        gate.after((n - 1) as nat).lemma_recorded();
    }
}

/// As many completions as the counter expects fire it exactly once, at the last
/// of them, and leave it as it was made. The completions may come from any
/// callers in any order: each is one indivisible step on the counter.
pub proof fn lemma_gate_fires_once(gate: CompletionGate)
    requires
        gate.wf(),
        gate.count() == 0,
    ensures
        gate.fired(gate.expected()) == 1,
        gate.after((gate.expected() - 1) as nat).fires(),
        gate.after(gate.expected()) == gate,
{
    let last = (gate.expected() - 1) as nat;
    lemma_gate_waits(gate, last);
    gate.after(last).lemma_recorded();
    assert(gate.after(gate.expected()) == gate.after(last).recorded());
    assert(gate.fired(gate.expected()) == gate.fired(last) + 1);
}

} // verus!
