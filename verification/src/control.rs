//! The decisions of an export, as a transition function.
//!
//! An export alternates between work that only the caller can do (a request, a
//! file, the compression) and decisions. The decisions are here: `next` takes
//! the state of the export and what happened last, and gives the state after it
//! and what to do now. Nothing in this file holds a string or a record, so the
//! laws at its end speak of every sequence of events.

use vstd::prelude::*;
use crate::error::ScrollError;
use crate::gate::CompletionGate;
use crate::rounds::{max_round, round_count, lemma_single_round};

verus! {

/// How an export ended.
#[derive(Clone, Copy, Debug, PartialEq, Eq)]
pub enum Outcome {
    /// The first request failed: nothing was exported.
    OpenFailed(ScrollError),
    /// The cluster reported an error for the index: nothing was exported.
    NoSuchIndex,
    /// The cluster reported no record: nothing was exported.
    EmptyResult,
    /// A page could not be written: the export was abandoned.
    WriteFailed,
    /// Every round was attempted.
    Completed,
}

/// What an export is waiting for.
#[derive(Clone, Copy, Debug, PartialEq, Eq)]
pub enum Phase {
    /// The first request is out.
    AwaitOpen,
    /// The page of `round` is being written.
    AwaitWrite { round: u64 },
    /// The compression is running; the page of `round` was the last written.
    AwaitCompress { round: u64 },
    /// The continuation request of `round` is out.
    AwaitScroll { round: u64 },
    /// The export is over.
    Done(Outcome),
}

/// What happened to the action that the export last asked for.
#[derive(Clone, Copy, Debug, PartialEq, Eq)]
pub enum Signal {
    /// The first request failed.
    OpenFailed(ScrollError),
    /// The first reply carried the cluster's error marker.
    NoSuchIndex,
    /// The first reply: `total` records in all, if the reply said so, and
    /// `first_len` of them in its page.
    Opened { total: Option<i64>, first_len: usize },
    /// A continuation request failed.
    ScrollFailed(ScrollError),
    /// A continuation reply held no record.
    ScrollEmpty,
    /// A continuation reply held records.
    ScrollPage,
    /// The page was written.
    Written,
    /// The page could not be written.
    WriteFailed,
    /// The compression has returned, whether or not it succeeded.
    Compressed,
}

/// What the caller is to do next.
#[derive(Clone, Copy, Debug, PartialEq, Eq)]
pub enum Directive {
    /// Send the first request.
    Open,
    /// Write the page at hand to the file of `round`.
    Write { round: u64 },
    /// Compress the output directory.
    Compress,
    /// Send the continuation request of `round`.
    Scroll { round: u64 },
    /// Stop: the export ended so.
    Finish(Outcome),
}

/// The state of an export, as far as its decisions depend on it.
#[derive(Clone, Copy, Debug, PartialEq, Eq)]
pub struct Control {
    /// What the export is waiting for.
    pub phase: Phase,
    /// The records that a page is asked to hold.
    pub page_size: i64,
    /// The number of rounds; 1 until the first reply has told.
    pub max_round: u64,
    /// Counts the written pages.
    pub gate: CompletionGate,
    /// The continuation requests that have failed so far.
    pub failed: u64,
}

/// Whether `total` reports at least one record.
pub open spec fn has_records(total: Option<i64>) -> bool {
    total matches Some(n) && n > 0
}

impl Control {
    /// The round that the export is busy with.
    pub open spec fn round(self) -> nat {
        match self.phase {
            Phase::AwaitWrite { round } => round as nat,
            Phase::AwaitCompress { round } => round as nat,
            Phase::AwaitScroll { round } => round as nat,
            _ => 0,
        }
    }

    /// What every state of an export meets: the counter waits for as many pages as
    /// there are rounds, no round lies beyond the last, no more pages are
    /// counted than rounds have gone by, only an export of several rounds
    /// sends continuation requests, and no more of them have failed than were
    /// sent.
    pub open spec fn wf(self) -> bool {
        &&& self.page_size > 0
        &&& self.max_round >= 1
        &&& self.gate.wf()
        &&& self.gate.expected() == self.max_round
        &&& self.round() <= self.max_round
        &&& self.max_round == 1 ==> self.round() == 0 && self.gate.count() == 0
        &&& !(self.phase is Done) ==> self.gate.count() <= self.round()
        &&& self.phase is AwaitOpen ==> self.max_round == 1
        &&& self.phase is AwaitScroll ==> self.max_round > 1 && self.round() >= 1
        &&& self.failed <= self.max_round
        &&& self.phase is AwaitOpen ==> self.failed == 0
        &&& self.phase is AwaitScroll ==> self.failed < self.round()
        &&& self.phase is AwaitWrite || self.phase is AwaitCompress ==> self.failed
            <= self.round()
    }

    /// The state in which an export starts: the first request is out.
    pub open spec fn initial(self) -> bool {
        &&& self.wf()
        &&& self.phase is AwaitOpen
    }

    /// The state in which the export has ended with `outcome`.
    pub open spec fn finished(self, outcome: Outcome) -> Control {
        Control { phase: Phase::Done(outcome), ..self }
    }

    /// The state after the first reply reported `total` records, `first_len` of
    /// them in its page.
    pub open spec fn planned(self, total: int, first_len: int) -> Control {
        let rounds = max_round(total, first_len, self.page_size as int) as u64;
        Control {
            phase: Phase::AwaitWrite { round: 0 },
            page_size: self.page_size,
            max_round: rounds,
            gate: CompletionGate::fresh(rounds),
            failed: self.failed,
        }
    }

    /// Moves on from `round`: to the next continuation request, or to the end
    /// where `round` was the last. An export of a single round ends without
    /// any continuation.
    pub open spec fn proceed(self, round: u64) -> (Control, Directive) {
        if self.max_round > 1 && round < self.max_round {
            let following = (round + 1) as u64;
            (
                Control { phase: Phase::AwaitScroll { round: following }, ..self },
                Directive::Scroll { round: following },
            )
        } else {
            (self.finished(Outcome::Completed), Directive::Finish(Outcome::Completed))
        }
    }

    /// The state after `signal` and what to do then; `None` where the export is
    /// not waiting for `signal`.
    ///
    /// The page of round 0 is written first. In an export of a single round the
    /// compression follows that write at once, and the counter is left out of it.
    /// In a longer export every written page is recorded at the counter, and the
    /// compression follows the write that fires it. A continuation that fails
    /// or holds no record is passed over: nothing is written or recorded for
    /// its round, and a failure is counted. A page that cannot be written ends
    /// the export.
    pub open spec fn next(self, signal: Signal) -> Option<(Control, Directive)> {
        match (self.phase, signal) {
            (Phase::AwaitOpen, Signal::OpenFailed(e)) => Some(
                (self.finished(Outcome::OpenFailed(e)), Directive::Finish(Outcome::OpenFailed(e))),
            ),
            (Phase::AwaitOpen, Signal::NoSuchIndex) => Some(
                (self.finished(Outcome::NoSuchIndex), Directive::Finish(Outcome::NoSuchIndex)),
            ),
            (Phase::AwaitOpen, Signal::Opened { total, first_len }) => if has_records(total) {
                Some(
                    (
                        self.planned(total.unwrap() as int, first_len as int),
                        Directive::Write { round: 0 },
                    ),
                )
            } else {
                Some(
                    (self.finished(Outcome::EmptyResult), Directive::Finish(Outcome::EmptyResult)),
                )
            },
            (Phase::AwaitWrite { round }, Signal::WriteFailed) => Some(
                (self.finished(Outcome::WriteFailed), Directive::Finish(Outcome::WriteFailed)),
            ),
            (Phase::AwaitWrite { round }, Signal::Written) => if self.max_round == 1 {
                Some((Control { phase: Phase::AwaitCompress { round }, ..self }, Directive::Compress))
            } else if self.gate.fires() {
                Some(
                    (
                        Control {
                            phase: Phase::AwaitCompress { round },
                            gate: self.gate.recorded(),
                            ..self
                        },
                        Directive::Compress,
                    ),
                )
            } else {
                Some(Control { gate: self.gate.recorded(), ..self }.proceed(round))
            },
            (Phase::AwaitCompress { round }, Signal::Compressed) => Some(self.proceed(round)),
            (Phase::AwaitScroll { round }, Signal::ScrollFailed(_)) => Some(
                Control { failed: (self.failed + 1) as u64, ..self }.proceed(round),
            ),
            (Phase::AwaitScroll { round }, Signal::ScrollEmpty) => Some(self.proceed(round)),
            (Phase::AwaitScroll { round }, Signal::ScrollPage) => Some(
                (Control { phase: Phase::AwaitWrite { round }, ..self }, Directive::Write { round }),
            ),
            _ => None,
        }
    }
}

impl Control {
    /// The state of an export that has just sent its first request, for pages
    /// of `page_size` records.
    pub fn start(page_size: i64) -> (control: Control)
        requires
            page_size > 0,
        ensures
            control.initial(),
            control.page_size == page_size,
    {
        Control {
            phase: Phase::AwaitOpen,
            page_size,
            max_round: 1,
            gate: CompletionGate::new(1),
            failed: 0,
        }
    }

    /// Whether the export is over.
    pub fn is_done(&self) -> (done: bool)
        ensures
            done == (self.phase is Done),
    {
        match self.phase {
            Phase::Done(_) => true,
            _ => false,
        }
    }

    /// Ends the export with `outcome`.
    fn finish(&mut self, outcome: Outcome) -> (directive: Directive)
        ensures
            *final(self) == old(self).finished(outcome),
            directive == Directive::Finish(outcome),
    {
        self.phase = Phase::Done(outcome);
        Directive::Finish(outcome)
    }

    /// Moves on from `round` as `proceed` says.
    fn move_on(&mut self, round: u64) -> (directive: Directive)
        requires
            round <= old(self).max_round,
        ensures
            (*final(self), directive) == old(self).proceed(round),
    {
        if self.max_round > 1 && round < self.max_round {
            let following: u64 = round + 1;
            self.phase = Phase::AwaitScroll { round: following };
            Directive::Scroll { round: following }
        } else {
            self.finish(Outcome::Completed)
        }
    }

    /// Takes in what happened and says what to do next, as `next` does. Where
    /// the export is not waiting for `signal`, it stays as it is and `None`
    /// comes back.
    pub fn advance(&mut self, signal: Signal) -> (directive: Option<Directive>)
        requires
            old(self).wf(),
        ensures
            final(self).wf(),
            match old(self).next(signal) {
                Some((after, order)) => *final(self) == after && directive == Some(order),
                None => *final(self) == *old(self) && directive.is_none(),
            },
    {
        proof {
            self.gate.lemma_recorded();
        }
        match (self.phase, signal) {
            (Phase::AwaitOpen, Signal::OpenFailed(e)) => Some(self.finish(Outcome::OpenFailed(e))),
            (Phase::AwaitOpen, Signal::NoSuchIndex) => Some(self.finish(Outcome::NoSuchIndex)),
            (Phase::AwaitOpen, Signal::Opened { total, first_len }) => {
                match total {
                    Some(records) if records > 0 => {
                        let rounds: u64 = round_count(records, first_len, self.page_size);
                        proof {
                            lemma_single_round(
                                records as int,
                                first_len as int,
                                self.page_size as int,
                            );
                        }
                        self.max_round = rounds;
                        self.gate = CompletionGate::new(rounds);
                        self.phase = Phase::AwaitWrite { round: 0 };
                        Some(Directive::Write { round: 0 })
                    },
                    _ => Some(self.finish(Outcome::EmptyResult)),
                }
            },
            (Phase::AwaitWrite { round }, Signal::WriteFailed) => Some(
                self.finish(Outcome::WriteFailed),
            ),
            (Phase::AwaitWrite { round }, Signal::Written) => {
                if self.max_round == 1 {
                    self.phase = Phase::AwaitCompress { round };
                    Some(Directive::Compress)
                } else if self.gate.record_completion() {
                    self.phase = Phase::AwaitCompress { round };
                    Some(Directive::Compress)
                } else {
                    Some(self.move_on(round))
                }
            },
            (Phase::AwaitCompress { round }, Signal::Compressed) => Some(self.move_on(round)),
            (Phase::AwaitScroll { round }, Signal::ScrollFailed(_)) => {
                self.failed = self.failed + 1;
                Some(self.move_on(round))
            },
            (Phase::AwaitScroll { round }, Signal::ScrollEmpty) => Some(self.move_on(round)),
            (Phase::AwaitScroll { round }, Signal::ScrollPage) => {
                self.phase = Phase::AwaitWrite { round };
                Some(Directive::Write { round })
            },
            _ => None,
        }
    }
}

} // verus!
