//! How many rounds an export takes.

use vstd::prelude::*;

verus! {

/// The number of pages of `page_size` records that `rest` records fill: the
/// quotient rounded up, and none where nothing is left.
pub open spec fn pages_needed(rest: int, page_size: int) -> int
    recommends
        page_size > 0,
{
    if rest <= 0 {
        0
    } else {
        (rest + page_size - 1) / page_size
    }
}

/// The number of rounds of an export whose first page held `first_len` of
/// `total` records. The first page is round 0 and counts as one; every further
/// page of up to `page_size` records adds one. A first page that already holds
/// every record, or more than the cluster reported, leaves a single round.
pub open spec fn max_round(total: int, first_len: int, page_size: int) -> int
    recommends
        page_size > 0,
{
    pages_needed(total - first_len, page_size) + 1
}

/// `pages_needed` is the ceiling of the quotient: that many pages hold `rest`
/// records, and one page fewer does not.
pub proof fn lemma_pages_needed_is_ceiling(rest: int, page_size: int)
    requires
        rest > 0,
        page_size > 0,
    ensures
        pages_needed(rest, page_size) >= 1,
        pages_needed(rest, page_size) * page_size >= rest,
        (pages_needed(rest, page_size) - 1) * page_size < rest,
{
    let q = (rest + page_size - 1) / page_size;
    let r = (rest + page_size - 1) % page_size;
    assert(rest + page_size - 1 == q * page_size + r && 0 <= r < page_size) by (nonlinear_arith)
        requires
            page_size > 0,
            q == (rest + page_size - 1) / page_size,
            r == (rest + page_size - 1) % page_size,
    ;
    assert((q - 1) * page_size == q * page_size - page_size) by (nonlinear_arith);
    assert(q >= 1) by (nonlinear_arith)
        requires
            q * page_size + r == rest + page_size - 1,
            r < page_size,
            rest > 0,
            page_size > 0,
    ;
}

/// An export of at least one record takes one round exactly when the first
/// page held every record.
pub proof fn lemma_single_round(total: int, first_len: int, page_size: int)
    requires
        page_size > 0,
    ensures
        max_round(total, first_len, page_size) >= 1,
        max_round(total, first_len, page_size) == 1 <==> total <= first_len,
{
    if total - first_len > 0 {
        lemma_pages_needed_is_ceiling(total - first_len, page_size);
    }
}

/// An export takes at least one round, and no more rounds beyond the first
/// than records were left after the first page.
pub proof fn lemma_max_round_bounds(total: int, first_len: int, page_size: int)
    requires
        page_size > 0,
    ensures
        max_round(total, first_len, page_size) >= 1,
        total <= first_len ==> max_round(total, first_len, page_size) == 1,
        total > first_len ==> max_round(total, first_len, page_size) <= total - first_len + 1,
{
    let rest = total - first_len;
    if rest > 0 {
        lemma_pages_needed_is_ceiling(rest, page_size);
        let q = pages_needed(rest, page_size);
        assert(q <= rest) by (nonlinear_arith)
            requires
                (q - 1) * page_size < rest,
                page_size >= 1,
                q >= 1,
        ;
    }
}

/// Splits the rounding up into a quotient and a test of the remainder.
proof fn lemma_round_up(rest: int, page_size: int)
    requires
        rest > 0,
        page_size > 0,
    ensures
        pages_needed(rest, page_size) == rest / page_size + if rest % page_size == 0 {
            0int
        } else {
            1int
        },
{
    let q = rest / page_size;
    let r = rest % page_size;
    assert(rest == q * page_size + r && 0 <= r < page_size) by (nonlinear_arith)
        requires
            page_size > 0,
            q == rest / page_size,
            r == rest % page_size,
    ;
    if r == 0 {
        assert((q * page_size + page_size - 1) / page_size == q) by (nonlinear_arith)
            requires
                page_size > 0,
        ;
    } else {
        assert((q * page_size + r + page_size - 1) / page_size == q + 1) by (nonlinear_arith)
            requires
                page_size > 0,
                0 < r < page_size,
        ;
    }
}

/// Computes the number of rounds of an export from what the first reply
/// reported: `total` records in all, `first_len` of them in the first page,
/// and pages of `page_size` records from then on.
pub fn round_count(total: i64, first_len: usize, page_size: i64) -> (rounds: u64)
    requires
        page_size > 0,
    ensures
        rounds == max_round(total as int, first_len as int, page_size as int),
{
    if total <= 0 {
        return 1;
    }
    let total_records: u64 = total as u64;
    let held: u64 = first_len as u64;
    if held >= total_records {
        return 1;
    }
    let rest: u64 = total_records - held;
    let size: u64 = page_size as u64;
    proof {
        lemma_round_up(rest as int, size as int);
        assert(rest / size <= rest) by (nonlinear_arith)
            requires
                size >= 1,
        ;
    }
    let full: u64 = rest / size;
    if rest % size == 0 {
        full + 1
    } else {
        full + 2
    }
}

} // verus!
