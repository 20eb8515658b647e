//! What holds of every export, whatever the cluster and the disk do.
//!
//! `run` feeds a sequence of signals to an export and collects the directives
//! that come out. The laws below speak of all such sequences: signals that the
//! export does not wait for are passed over, so no order of events is left out.

use vstd::prelude::*;
use crate::control::{Control, Directive, Outcome, Phase, Signal, has_records};
use crate::gate::CompletionGate;
use crate::rounds::{max_round, lemma_max_round_bounds};

verus! {

/// The state that `signals` leave an export in, and the directives that they
/// draw from it, in order.
pub open spec fn run(start: Control, signals: Seq<Signal>) -> (Control, Seq<Directive>)
    decreases signals.len(),
{
    if signals.len() == 0 {
        (start, Seq::empty())
    } else {
        match start.next(signals.first()) {
            Some((after, order)) => {
                let (end, orders) = run(after, signals.drop_first());
                (end, seq![order] + orders)
            },
            None => run(start, signals.drop_first()),
        }
    }
}

/// 1 for a directive to write a page, else 0.
pub open spec fn is_write(order: Directive) -> nat {
    if order is Write {
        1
    } else {
        0
    }
}

/// 1 for the directive to compress, else 0.
pub open spec fn is_compress(order: Directive) -> nat {
    if order is Compress {
        1
    } else {
        0
    }
}

/// How many of `orders` ask for a page to be written.
pub open spec fn writes(orders: Seq<Directive>) -> nat
    decreases orders.len(),
{
    if orders.len() == 0 {
        0
    } else {
        is_write(orders.first()) + writes(orders.drop_first())
    }
}

/// How many of `orders` ask for the compression.
pub open spec fn compressions(orders: Seq<Directive>) -> nat
    decreases orders.len(),
{
    if orders.len() == 0 {
        0
    } else {
        is_compress(orders.first()) + compressions(orders.drop_first())
    }
}

/// The pages that an export in state `c` may still write.
pub open spec fn pages_ahead(c: Control) -> int {
    match c.phase {
        Phase::AwaitWrite { round } => c.max_round - round + 1,
        Phase::AwaitScroll { round } => c.max_round - round + 1,
        Phase::AwaitCompress { round } => c.max_round - round,
        _ => 0,
    }
}

/// The compressions that an export in state `c` may still ask for: one while
/// the counter can still be reached or the single page is not yet written, and
/// none after that.
pub open spec fn compressions_ahead(c: Control) -> nat {
    match c.phase {
        Phase::Done(_) => 0,
        Phase::AwaitOpen => 1,
        _ => if c.max_round == 1 {
            if c.phase is AwaitWrite {
                1
            } else {
                0
            }
        } else if c.gate.count() + pages_ahead(c) >= c.max_round {
            1
        } else {
            0
        },
    }
}

/// Counting the directives of a sequence by its first and its rest.
proof fn lemma_count_first(order: Directive, rest: Seq<Directive>)
    ensures
        writes(seq![order] + rest) == is_write(order) + writes(rest),
        compressions(seq![order] + rest) == is_compress(order) + compressions(rest),
{
    let all = seq![order] + rest;
    assert(all.first() == order);
    assert(all.drop_first() =~= rest);
}

/// Counting the directives of two sequences put together.
proof fn lemma_count_joined(head: Seq<Directive>, tail: Seq<Directive>)
    ensures
        writes(head + tail) == writes(head) + writes(tail),
        compressions(head + tail) == compressions(head) + compressions(tail),
    decreases head.len(),
{
    if head.len() == 0 {
        assert(head + tail =~= tail);
    } else {
        let all = head + tail;
        assert(all.first() == head.first());
        assert(all.drop_first() =~= head.drop_first() + tail);
        lemma_count_joined(head.drop_first(), tail);
    }
}

/// A run over two sequences of signals is the run over the first, followed by
/// the run over the second from where the first ended.
pub proof fn lemma_run_joined(start: Control, head: Seq<Signal>, tail: Seq<Signal>)
    ensures
        run(start, head + tail).0 == run(run(start, head).0, tail).0,
        run(start, head + tail).1 == run(start, head).1 + run(run(start, head).0, tail).1,
    decreases head.len(),
{
    if head.len() == 0 {
        assert(head + tail =~= tail);
        assert(run(start, head).1 + run(start, tail).1 =~= run(start, tail).1);
    } else {
        let all = head + tail;
        assert(all.first() == head.first());
        assert(all.drop_first() =~= head.drop_first() + tail);
        match start.next(head.first()) {
            Some((after, order)) => {
                lemma_run_joined(after, head.drop_first(), tail);
                let first_part = run(after, head.drop_first());
                assert(seq![order] + (first_part.1 + run(first_part.0, tail).1) =~= (seq![order]
                    + first_part.1) + run(first_part.0, tail).1);
            },
            None => {
                lemma_run_joined(start, head.drop_first(), tail);
            },
        }
    }
}

/// One step keeps an export well formed, and uses up what it emits: a
/// compression that is asked for is no longer ahead.
pub proof fn lemma_step(c: Control, signal: Signal)
    requires
        c.wf(),
    ensures
        c.next(signal) matches Some((after, order)) ==> {
            &&& after.wf()
            &&& after.page_size == c.page_size
            &&& is_compress(order) + compressions_ahead(after) <= compressions_ahead(c)
        },
{
    c.gate.lemma_recorded();
    match (c.phase, signal) {
        (Phase::AwaitOpen, Signal::Opened { total, first_len }) => {
            if has_records(total) {
                let records = total.unwrap() as int;
                lemma_max_round_bounds(records, first_len as int, c.page_size as int);
                let rounds = max_round(records, first_len as int, c.page_size as int) as u64;
                CompletionGate::lemma_fresh(rounds);
            }
        },
        _ => {},
    }
}

/// An export that is over emits nothing more, and stays as it is.
pub proof fn lemma_nothing_after_the_end(c: Control, signals: Seq<Signal>)
    requires
        c.phase is Done,
    ensures
        run(c, signals) == (c, Seq::<Directive>::empty()),
    decreases signals.len(),
{
    if signals.len() > 0 {
        lemma_nothing_after_the_end(c, signals.drop_first());
    }
}

/// Whatever happens, an export stays well formed and asks for no more
/// compressions than were ahead of it.
pub proof fn lemma_compressions_bounded(c: Control, signals: Seq<Signal>)
    requires
        c.wf(),
    ensures
        run(c, signals).0.wf(),
        compressions(run(c, signals).1) <= compressions_ahead(c),
    decreases signals.len(),
{
    if signals.len() > 0 {
        let rest = signals.drop_first();
        lemma_step(c, signals.first());
        match c.next(signals.first()) {
            Some((after, order)) => {
                lemma_compressions_bounded(after, rest);
                lemma_count_first(order, run(after, rest).1);
            },
            None => {
                lemma_compressions_bounded(c, rest);
            },
        }
    }
}

/// No export compresses twice: whatever the cluster replies and whether or not
/// the writes succeed, in whatever order the events arrive, the compression is
/// asked for at most once between the first request and the end.
pub proof fn law_compression_at_most_once(start: Control, signals: Seq<Signal>)
    requires
        start.initial(),
    ensures
        compressions(run(start, signals).1) <= 1,
{
    lemma_compressions_bounded(start, signals);
}

/// Whether a first signal tells that there is nothing to export: the request
/// failed, the index does not exist, or the cluster reported no record.
pub open spec fn nothing_to_export(first: Signal) -> bool {
    match first {
        Signal::OpenFailed(_) => true,
        Signal::NoSuchIndex => true,
        Signal::Opened { total, first_len } => !has_records(total),
        _ => false,
    }
}

/// Where the first reply leaves nothing to export, nothing is written and
/// nothing is compressed: the export ends at once, and whatever is reported to
/// it afterwards draws no further directive.
pub proof fn law_no_output_without_records(start: Control, first: Signal, rest: Seq<Signal>)
    requires
        start.initial(),
        nothing_to_export(first),
    ensures
        run(start, seq![first] + rest).0.phase is Done,
        run(start, seq![first] + rest).1.len() == 1,
        run(start, seq![first] + rest).1[0] is Finish,
        writes(run(start, seq![first] + rest).1) == 0,
        compressions(run(start, seq![first] + rest).1) == 0,
{
    let all = seq![first] + rest;
    assert(all.first() == first);
    assert(all.drop_first() =~= rest);
    let (after, order) = start.next(first).unwrap();
    lemma_nothing_after_the_end(after, rest);
    lemma_count_first(order, Seq::empty());
    assert(writes(Seq::<Directive>::empty()) == 0);
    assert(compressions(Seq::<Directive>::empty()) == 0);
}

/// Once the single page of an export of one round is on its way, no further
/// page is asked for.
proof fn lemma_single_round_writes_no_more(c: Control, signals: Seq<Signal>)
    requires
        c.wf(),
        c.max_round == 1,
        !(c.phase is AwaitOpen),
    ensures
        writes(run(c, signals).1) == 0,
    decreases signals.len(),
{
    if signals.len() > 0 {
        let rest = signals.drop_first();
        lemma_step(c, signals.first());
        match c.next(signals.first()) {
            Some((after, order)) => {
                lemma_single_round_writes_no_more(after, rest);
                lemma_count_first(order, run(after, rest).1);
            },
            None => {
                lemma_single_round_writes_no_more(c, rest);
            },
        }
    }
}

/// An export whose first page holds every record writes exactly that page,
/// whatever follows, and compresses at most once. Where the page is written,
/// it compresses exactly once: the compression is the very next directive,
/// and the end follows it.
pub proof fn law_single_round(start: Control, total: i64, first_len: usize, rest: Seq<Signal>)
    requires
        start.initial(),
        total > 0,
        max_round(total as int, first_len as int, start.page_size as int) == 1,
    ensures
        ({
            let opened = Signal::Opened { total: Some(total), first_len };
            let orders = run(start, seq![opened] + rest).1;
            &&& orders.len() >= 1
            &&& orders[0] == Directive::Write { round: 0 }
            &&& writes(orders) == 1
            &&& compressions(orders) <= 1
            &&& rest.len() > 0 && rest[0] == Signal::Written ==> {
                &&& compressions(orders) == 1
                &&& orders.len() >= 2
                &&& orders[1] == Directive::Compress
            }
            &&& run(start, seq![opened, Signal::Written, Signal::Compressed]).1 == seq![
                Directive::Write { round: 0 },
                Directive::Compress,
                Directive::Finish(Outcome::Completed),
            ]
        }),
{
    let opened = Signal::Opened { total: Some(total), first_len };
    let all = seq![opened] + rest;
    assert(all.first() == opened);
    assert(all.drop_first() =~= rest);
    lemma_step(start, opened);
    let (first_write, order) = start.next(opened).unwrap();
    lemma_single_round_writes_no_more(first_write, rest);
    lemma_count_first(order, run(first_write, rest).1);
    lemma_compressions_bounded(start, all);
    if rest.len() > 0 && rest[0] == Signal::Written {
        lemma_step(first_write, Signal::Written);
        let (compressing, second) = first_write.next(Signal::Written).unwrap();
        lemma_compressions_bounded(compressing, rest.drop_first());
        lemma_count_first(second, run(compressing, rest.drop_first()).1);
    }

    let short = seq![opened, Signal::Written, Signal::Compressed];
    let after_open = seq![Signal::Written, Signal::Compressed];
    let after_write = seq![Signal::Compressed];
    assert(short.drop_first() =~= after_open);
    assert(after_open.drop_first() =~= after_write);
    assert(after_write.drop_first() =~= Seq::<Signal>::empty());
    let (compressing, second) = first_write.next(Signal::Written).unwrap();
    let (ended, third) = compressing.next(Signal::Compressed).unwrap();
    assert(run(ended, Seq::<Signal>::empty()).1 =~= Seq::<Directive>::empty());
    assert(run(compressing, after_write).1 =~= seq![third]);
    assert(run(first_write, after_open).1 =~= seq![second, third]);
    assert(run(start, short).1 =~= seq![order, second, third]);
}

/// `k` rounds in each of which the continuation brings records and the page is
/// written.
pub open spec fn full_rounds(k: nat) -> Seq<Signal>
    decreases k,
{
    if k == 0 {
        Seq::empty()
    } else {
        seq![Signal::ScrollPage, Signal::Written] + full_rounds((k - 1) as nat)
    }
}

/// While fewer pages are written than the export has rounds, full rounds only
/// count: each writes its page, none compresses.
proof fn lemma_full_rounds(c: Control, round: u64, k: nat)
    requires
        c.wf(),
        c.phase == (Phase::AwaitScroll { round }),
        c.gate.count() == round,
        round + k < c.max_round,
    ensures
        ({
            let (end, orders) = run(c, full_rounds(k));
            &&& end.wf()
            &&& end.phase == Phase::AwaitScroll { round: (round + k) as u64 }
            &&& end.gate.count() == round + k
            &&& end.max_round == c.max_round
            &&& writes(orders) == k
            &&& compressions(orders) == 0
        }),
    decreases k,
{
    if k == 0 {
        assert(writes(Seq::<Directive>::empty()) == 0);
        assert(compressions(Seq::<Directive>::empty()) == 0);
    } else {
        let pair = seq![Signal::ScrollPage, Signal::Written];
        let later = full_rounds((k - 1) as nat);
        let tail = seq![Signal::Written] + later;
        assert((pair + later).first() == Signal::ScrollPage);
        assert((pair + later).drop_first() =~= tail);
        assert(tail.first() == Signal::Written);
        assert(tail.drop_first() =~= later);
        lemma_step(c, Signal::ScrollPage);
        let (writing, first) = c.next(Signal::ScrollPage).unwrap();
        writing.gate.lemma_recorded();
        lemma_step(writing, Signal::Written);
        let (scrolling, second) = writing.next(Signal::Written).unwrap();
        assert(scrolling.phase == Phase::AwaitScroll { round: (round + 1) as u64 });
        lemma_full_rounds(scrolling, (round + 1) as u64, (k - 1) as nat);
        let (end, orders) = run(scrolling, later);
        assert(run(writing, tail) == (end, seq![second] + orders));
        assert(run(c, pair + later) == (end, seq![first] + (seq![second] + orders)));
        lemma_count_first(second, orders);
        lemma_count_first(first, seq![second] + orders);
    }
}

/// In an export of several rounds in which the first page and every
/// continuation up to the last expected page bring records that are written,
/// the compression is asked for exactly once: in answer to the write of that
/// last page, not before, and not again, whatever happens afterwards. The
/// counter is back at zero when it is asked for.
pub proof fn law_compression_after_last_page(
    start: Control,
    total: i64,
    first_len: usize,
    rest: Seq<Signal>,
)
    requires
        start.initial(),
        total > 0,
        max_round(total as int, first_len as int, start.page_size as int) > 1,
    ensures
        ({
            let rounds = max_round(total as int, first_len as int, start.page_size as int);
            let opened = Signal::Opened { total: Some(total), first_len };
            let signals = seq![opened, Signal::Written] + full_rounds((rounds - 2) as nat) + seq![
                Signal::ScrollPage,
                Signal::Written,
            ];
            let (end, orders) = run(start, signals);
            &&& end.phase matches Phase::AwaitCompress { round } && round + 1 == rounds
            &&& end.gate.count() == 0
            &&& orders.last() == Directive::Compress
            &&& compressions(orders) == 1
            &&& compressions(orders.drop_last()) == 0
            &&& writes(orders) == rounds
            &&& compressions(run(start, signals + rest).1) == 1
        }),
{
    let rounds = max_round(total as int, first_len as int, start.page_size as int);
    let opened = Signal::Opened { total: Some(total), first_len };
    let head = seq![opened, Signal::Written];
    let middle = full_rounds((rounds - 2) as nat);
    let tail = seq![Signal::ScrollPage, Signal::Written];

    // The first page: written and counted, no compression yet.
    lemma_max_round_bounds(total as int, first_len as int, start.page_size as int);
    lemma_step(start, opened);
    let (first_write, o1) = start.next(opened).unwrap();
    CompletionGate::lemma_fresh(first_write.max_round);
    first_write.gate.lemma_recorded();
    lemma_step(first_write, Signal::Written);
    let (scrolling, o2) = first_write.next(Signal::Written).unwrap();
    let written = seq![Signal::Written];
    assert(head.drop_first() =~= written);
    assert(written.drop_first() =~= Seq::<Signal>::empty());
    assert(run(scrolling, Seq::<Signal>::empty()) == (scrolling, Seq::<Directive>::empty()));
    assert(run(first_write, written) == (scrolling, seq![o2] + Seq::<Directive>::empty()));
    assert(run(start, head) == (scrolling, seq![o1] + (seq![o2] + Seq::<Directive>::empty())));
    assert(run(start, head).1 =~= seq![o1, o2]);
    lemma_count_first(o2, Seq::empty());
    lemma_count_first(o1, seq![o2]);
    assert(seq![o1] + seq![o2] =~= seq![o1, o2]);
    assert(seq![o2] + Seq::<Directive>::empty() =~= seq![o2]);

    // The rounds before the last expected page.
    lemma_full_rounds(scrolling, 1, (rounds - 2) as nat);
    let (waiting, mid_orders) = run(scrolling, middle);

    // The last expected page fires the counter.
    lemma_step(waiting, Signal::ScrollPage);
    let (last_write, o3) = waiting.next(Signal::ScrollPage).unwrap();
    last_write.gate.lemma_recorded();
    lemma_step(last_write, Signal::Written);
    let (end, o4) = last_write.next(Signal::Written).unwrap();
    assert(tail.drop_first() =~= written);
    assert(run(end, Seq::<Signal>::empty()) == (end, Seq::<Directive>::empty()));
    assert(run(last_write, written) == (end, seq![o4] + Seq::<Directive>::empty()));
    assert(run(waiting, tail) == (end, seq![o3] + (seq![o4] + Seq::<Directive>::empty())));
    assert(run(waiting, tail).1 =~= seq![o3, o4]);
    lemma_count_first(o4, Seq::empty());
    lemma_count_first(o3, seq![o4]);
    assert(seq![o3] + seq![o4] =~= seq![o3, o4]);
    assert(seq![o4] + Seq::<Directive>::empty() =~= seq![o4]);

    lemma_run_joined(start, head, middle);
    lemma_run_joined(start, head + middle, tail);
    let before = seq![o1, o2] + mid_orders;
    let orders = before + seq![o3, o4];
    lemma_count_joined(seq![o1, o2], mid_orders);
    lemma_count_joined(before, seq![o3, o4]);
    assert(orders.drop_last() =~= before + seq![o3]);
    lemma_count_joined(before, seq![o3]);
    lemma_count_first(o3, Seq::empty());
    assert(seq![o3] + Seq::<Directive>::empty() =~= seq![o3]);

    // Nothing that follows compresses again.
    let signals = head + middle + tail;
    lemma_run_joined(start, signals, rest);
    lemma_count_joined(orders, run(end, rest).1);
    law_compression_at_most_once(start, signals + rest);
}

/// A continuation that brings no record is inert: no file is asked for, no
/// compression, the counter counts nothing, and no failure is noted. The
/// export only moves on to the next round, or ends where the round was the
/// last.
pub proof fn law_gap_round_is_inert(c: Control)
    requires
        c.wf(),
        c.phase is AwaitScroll,
    ensures
        c.next(Signal::ScrollEmpty) matches Some((after, order)) && {
            &&& after.gate == c.gate
            &&& after.max_round == c.max_round
            &&& after.failed == c.failed
            &&& !(order is Write)
            &&& !(order is Compress)
            &&& order is Scroll || order == Directive::Finish(Outcome::Completed)
        },
{
}

/// A first request that fails ends the export with that failure before
/// anything is written.
pub proof fn law_failed_open_aborts(start: Control, error: crate::error::ScrollError)
    requires
        start.initial(),
    ensures
        start.next(Signal::OpenFailed(error)) == Some(
            (
                start.finished(Outcome::OpenFailed(error)),
                Directive::Finish(Outcome::OpenFailed(error)),
            ),
        ),
{
}

} // verus!
