//! What token reports add to a session, in plain numbers.

use crate::counting::{count_payload, count_report, Counted};
use crate::entry::CodexPayload;
use crate::tokens::{CodexTokenUsage, CodexTotals, TokenBreakdown};
use vstd::prelude::*;

verus! {

/// No counter of `totals` is below zero.
pub open spec fn is_natural(totals: CodexTotals) -> bool {
    totals.input >= 0 && totals.output >= 0 && totals.cached >= 0 && totals.reasoning >= 0
}

/// All counters of `totals`, added up.
pub open spec fn grand_total(totals: CodexTotals) -> int {
    totals.input + totals.output + totals.cached + totals.reasoning
}

/// Some counter of `total` is below that of `base`.
pub open spec fn falls_short(total: CodexTotals, base: CodexTotals) -> bool {
    ||| total.input < base.input
    ||| total.output < base.output
    ||| total.cached < base.cached
    ||| total.reasoning < base.reasoning
}

/// No counter of `total` is below that of `base`, and some counter is above.
pub open spec fn grows_over(total: CodexTotals, base: CodexTotals) -> bool {
    &&& !falls_short(total, base)
    &&& falls_short(base, total)
}

/// `tokens` splits the counters `used`: the input into what was cached, which is no more than the
/// input, and the rest.
pub open spec fn splits(tokens: TokenBreakdown, used: CodexTotals) -> bool {
    &&& tokens.input >= 0
    &&& tokens.input + tokens.cache_read == used.input
    &&& tokens.cache_read == used.cached || (used.cached > used.input && tokens.input == 0)
    &&& tokens.output == used.output
    &&& tokens.cache_write == 0
    &&& tokens.reasoning == used.reasoning
}

/// `counted` adds the counters `used` and moves the baseline to `next`; where nothing was used it
/// adds nothing and leaves the baseline `previous`.
pub open spec fn adds(
    counted: Counted,
    used: CodexTotals,
    next: Option<CodexTotals>,
    previous: Option<CodexTotals>,
) -> bool {
    if used.input == 0 && used.output == 0 && used.reasoning == 0 {
        counted.tokens is None && counted.baseline == previous
    } else {
        counted.tokens is Some && splits(counted.tokens->0, used) && counted.baseline == next
    }
}

/// Totals read as out of order after `base` exactly where none of the three is empty and the grand
/// total has at least 98 percent of that of `base`, or twice the increment brings it up to it.
pub proof fn near_totals_read_as_stale(total: CodexTotals, last: CodexTotals, base: CodexTotals)
    requires
        is_natural(total),
        is_natural(last),
        is_natural(base),
        100 * grand_total(total) <= i64::MAX,
        98 * grand_total(base) <= i64::MAX,
        grand_total(total) + 2 * grand_total(last) <= i64::MAX,
    ensures
        total.is_stale(base, last) <==> {
            &&& grand_total(total) > 0
            &&& grand_total(last) > 0
            &&& grand_total(base) > 0
            &&& {
                ||| 100 * grand_total(total) >= 98 * grand_total(base)
                ||| grand_total(total) + 2 * grand_total(last) >= grand_total(base)
            }
        },
{
}

/// A report with a counter below the baseline is passed over, and the baseline stays, where the
/// grand total has at least 98 percent of the baseline's, or where twice the increment brings it up
/// to the baseline's.
pub proof fn near_regressions_are_passed_over(
    total: CodexTotals,
    last: CodexTotals,
    base: CodexTotals,
)
    requires
        is_natural(total),
        is_natural(last),
        is_natural(base),
        falls_short(total, base),
        grand_total(total) > 0,
        grand_total(last) > 0,
        100 * grand_total(total) >= 98 * grand_total(base) || grand_total(total) + 2 * grand_total(
            last,
        ) >= grand_total(base),
    ensures
        count_report(Some(total), Some(last), Some(base)).tokens is None,
        count_report(Some(total), Some(last), Some(base)).baseline == Some(base),
{
}

/// A report with a counter below the baseline is a reset, and counts its increment, where its grand
/// total has less than 98 percent of the baseline's and twice the increment does not bring it up to
/// the baseline's. So it is where the new totals are all zero.
pub proof fn far_regressions_are_resets(total: CodexTotals, last: CodexTotals, base: CodexTotals)
    requires
        is_natural(total),
        is_natural(last),
        is_natural(base),
        98 * grand_total(base) <= i64::MAX,
        falls_short(total, base),
        grand_total(total) == 0 || {
            &&& 100 * grand_total(total) < 98 * grand_total(base)
            &&& grand_total(total) + 2 * grand_total(last) < grand_total(base)
        },
    ensures
        adds(
            count_report(Some(total), Some(last), Some(base)),
            last,
            Some(total),
            Some(base),
        ),
{
}

/// A report whose totals grew counts its increment, and one whose totals are those of the baseline
/// counts nothing.
pub proof fn grown_totals_count_the_increment(
    total: CodexTotals,
    last: CodexTotals,
    base: CodexTotals,
)
    requires
        is_natural(total),
        is_natural(last),
        is_natural(base),
        !falls_short(total, base),
    ensures
        grows_over(total, base) ==> adds(
            count_report(Some(total), Some(last), Some(base)),
            last,
            Some(total),
            Some(base),
        ),
        !grows_over(total, base) ==> {
            &&& count_report(Some(total), Some(last), Some(base)).tokens is None
            &&& count_report(Some(total), Some(last), Some(base)).baseline == Some(base)
        },
{
}

/// The first report of a session counts its increment where it gives one, and else its totals.
pub proof fn first_reports_count(total: CodexTotals, last: CodexTotals)
    requires
        is_natural(total),
        is_natural(last),
    ensures
        adds(count_report(Some(total), Some(last), None), last, Some(total), None),
        adds(count_report(Some(total), None, None), total, Some(total), None),
        adds(count_report(None, Some(last), None), last, None, None),
{
}

/// Totals without an increment count what they grew by since the baseline. Totals with a counter
/// below the baseline count nothing and are the new baseline.
pub proof fn totals_alone_count_their_growth(
    total: CodexTotals,
    base: CodexTotals,
    growth: CodexTotals,
)
    requires
        is_natural(total),
        is_natural(base),
        !falls_short(total, base) ==> {
            &&& base.input + growth.input == total.input
            &&& base.output + growth.output == total.output
            &&& base.cached + growth.cached == total.cached
            &&& base.reasoning + growth.reasoning == total.reasoning
        },
    ensures
        !falls_short(total, base) ==> adds(
            count_report(Some(total), None, Some(base)),
            growth,
            Some(total),
            Some(base),
        ),
        falls_short(total, base) ==> {
            &&& count_report(Some(total), None, Some(base)).tokens is None
            &&& count_report(Some(total), None, Some(base)).baseline == Some(total)
        },
{
}

/// An increment without totals counts, and moves the baseline on by as much, as far as `i64` goes.
pub proof fn increments_alone_move_the_baseline(
    last: CodexTotals,
    base: CodexTotals,
    next: CodexTotals,
)
    requires
        is_natural(last),
        is_natural(base),
        next.input == base.input + last.input || next.input == i64::MAX < base.input + last.input,
        next.output == base.output + last.output || next.output == i64::MAX < base.output
            + last.output,
        next.cached == base.cached + last.cached || next.cached == i64::MAX < base.cached
            + last.cached,
        next.reasoning == base.reasoning + last.reasoning || next.reasoning == i64::MAX
            < base.reasoning + last.reasoning,
    ensures
        adds(count_report(None, Some(last), Some(base)), last, Some(next), Some(base)),
{
}

/// A report of nothing adds nothing and leaves the baseline.
pub proof fn reports_of_nothing_change_nothing(previous: Option<CodexTotals>)
    ensures
        count_report(None, None, previous).tokens is None,
        count_report(None, None, previous).baseline == previous,
{
}

/// `n` is what the counter `reported` says: zero where it is missing or negative.
pub open spec fn says(reported: Option<i64>, n: i64) -> bool {
    match reported {
        Some(k) => n == k && k >= 0 || n == 0 && k < 0,
        None => n == 0,
    }
}

/// `totals` are what `usage` says. Of the two counters of cached tokens the larger counts.
pub open spec fn are_told(usage: Option<CodexTokenUsage>, totals: Option<CodexTotals>) -> bool {
    match (usage, totals) {
        (Some(usage), Some(totals)) => {
            &&& says(usage.input_tokens, totals.input)
            &&& says(usage.output_tokens, totals.output)
            &&& says(usage.reasoning_output_tokens, totals.reasoning)
            &&& says(usage.cached_input_tokens, totals.cached) || says(
                usage.cache_read_input_tokens,
                totals.cached,
            )
            &&& usage.cached_input_tokens matches Some(n) ==> n <= totals.cached
            &&& usage.cache_read_input_tokens matches Some(n) ==> n <= totals.cached
            &&& totals.cached >= 0
        },
        (None, None) => true,
        _ => false,
    }
}

/// A payload counts as the report of the totals and of the increment that its counters say; one
/// without counters counts nothing.
pub proof fn payloads_count_what_they_say(
    payload: CodexPayload,
    total: Option<CodexTotals>,
    last: Option<CodexTotals>,
    previous: Option<CodexTotals>,
)
    requires
        payload.info matches Some(info) ==> are_told(info.total_token_usage, total) && are_told(
            info.last_token_usage,
            last,
        ),
    ensures
        payload.info is Some ==> count_payload(payload, previous) == count_report(
            total,
            last,
            previous,
        ),
        payload.info is None ==> {
            &&& count_payload(payload, previous).tokens is None
            &&& count_payload(payload, previous).baseline == previous
        },
{
}

} // verus!
