//! Token counters: what a session reports, cumulative totals and per-message breakdowns.

use vstd::prelude::*;

verus! {

/// `x` brought into the range of `i64`.
pub open spec fn saturated(x: int) -> i64 {
    if x > i64::MAX {
        i64::MAX
    } else if x < i64::MIN {
        i64::MIN
    } else {
        x as i64
    }
}

/// A number that is an `i64` is left as it is; any other becomes the nearest one that is.
pub proof fn saturation_goes_to_the_nearest(x: int, y: i64)
    ensures
        i64::MIN <= x <= i64::MAX ==> saturated(x) == x,
        x <= y ==> saturated(x) <= y,
        x >= y ==> saturated(x) >= y,
{
}

/// The sum of `a` and `b`, held within `i64`.
pub fn saturating_sum(a: i64, b: i64) -> (sum: i64)
    ensures
        sum == saturated(a + b),
{
    match a.checked_add(b) {
        Some(sum) => sum,
        None => if a > 0 {
            i64::MAX
        } else {
            i64::MIN
        },
    }
}

/// The difference of `a` and `b`, held within `i64`.
pub fn saturating_difference(a: i64, b: i64) -> (difference: i64)
    ensures
        difference == saturated(a - b),
{
    match a.checked_sub(b) {
        Some(difference) => difference,
        None => if a >= 0 {
            i64::MAX
        } else {
            i64::MIN
        },
    }
}

/// The product of `a` and `b`, held within `i64`.
pub fn saturating_product(a: i64, b: i64) -> (product: i64)
    ensures
        product == saturated(a * b),
{
    match a.checked_mul(b) {
        Some(product) => product,
        None => {
            assert(a >= 0 && b >= 0 ==> a * b >= 0) by (nonlinear_arith);
            assert(a <= 0 && b <= 0 ==> a * b >= 0) by (nonlinear_arith);
            assert(a >= 0 && b <= 0 ==> a * b <= 0) by (nonlinear_arith);
            assert(a <= 0 && b >= 0 ==> a * b <= 0) by (nonlinear_arith);
            if (a > 0) == (b > 0) {
                i64::MAX
            } else {
                i64::MIN
            }
        },
    }
}

/// The larger of `a` and `b`.
pub open spec fn larger(a: i64, b: i64) -> i64 {
    if a >= b {
        a
    } else {
        b
    }
}

/// The larger of `a` and `b`.
pub fn max_of(a: i64, b: i64) -> (max: i64)
    ensures
        max == larger(a, b),
        max >= a,
        max >= b,
        max == a || max == b,
{
    if a >= b {
        a
    } else {
        b
    }
}

/// Token usage as a session file reports it.
#[derive(Debug, Clone, Copy)]
pub struct CodexTokenUsage {
    pub input_tokens: Option<i64>,
    pub output_tokens: Option<i64>,
    pub cached_input_tokens: Option<i64>,
    pub cache_read_input_tokens: Option<i64>,
    pub reasoning_output_tokens: Option<i64>,
}

/// The tokens of one message, each counted once.
#[derive(Debug, Clone, Copy, PartialEq, Eq, Structural)]
pub struct TokenBreakdown {
    pub input: i64,
    pub output: i64,
    pub cache_read: i64,
    pub cache_write: i64,
    pub reasoning: i64,
}

impl TokenBreakdown {
    /// No counter is negative.
    pub open spec fn non_negative(self) -> bool {
        &&& self.input >= 0
        &&& self.output >= 0
        &&& self.cache_read >= 0
        &&& self.cache_write >= 0
        &&& self.reasoning >= 0
    }

    /// All counters added up, held within `i64` after each addition.
    pub open spec fn sum(self) -> i64 {
        saturated(
            saturated(
                saturated(saturated(self.input + self.output) + self.cache_read)
                    + self.cache_write,
            ) + self.reasoning,
        )
    }

    /// All counters added up, held within `i64`.
    pub fn total(&self) -> (total: i64)
        ensures
            total == self.sum(),
            self.non_negative() ==> total == saturated(
                self.input + self.output + self.cache_read + self.cache_write + self.reasoning,
            ),
    {
        let fresh = saturating_sum(self.input, self.output);
        let cached = saturating_sum(saturating_sum(fresh, self.cache_read), self.cache_write);
        saturating_sum(cached, self.reasoning)
    }
}

/// Token counters of a session: what one report adds, or what all reports add up to.
#[derive(Debug, Clone, Copy, PartialEq, Eq, Structural)]
pub struct CodexTotals {
    pub input: i64,
    pub output: i64,
    pub cached: i64,
    pub reasoning: i64,
}

/// A reported counter: a missing or negative one counts as zero.
pub open spec fn reported(counter: Option<i64>) -> i64 {
    match counter {
        Some(n) if n > 0 => n,
        _ => 0,
    }
}

fn reported_or_zero(counter: Option<i64>) -> (n: i64)
    ensures
        n == reported(counter),
{
    match counter {
        Some(n) => max_of(n, 0),
        None => 0,
    }
}

impl CodexTotals {
    /// No counter is negative.
    pub open spec fn non_negative(self) -> bool {
        &&& self.input >= 0
        &&& self.output >= 0
        &&& self.cached >= 0
        &&& self.reasoning >= 0
    }

    /// No counter is below the one of `previous`.
    pub open spec fn advances(self, previous: Self) -> bool {
        &&& self.input >= previous.input
        &&& self.output >= previous.output
        &&& self.cached >= previous.cached
        &&& self.reasoning >= previous.reasoning
    }

    /// What a usage report counts. Cached tokens are reported under two names; the larger counts.
    pub open spec fn of_usage(usage: CodexTokenUsage) -> Self {
        CodexTotals {
            input: reported(usage.input_tokens),
            output: reported(usage.output_tokens),
            cached: larger(
                reported(usage.cached_input_tokens),
                reported(usage.cache_read_input_tokens),
            ),
            reasoning: reported(usage.reasoning_output_tokens),
        }
    }

    /// What a usage report counts.
    pub fn from_usage(usage: &CodexTokenUsage) -> (totals: Self)
        ensures
            totals == Self::of_usage(*usage),
            totals.non_negative(),
            usage.input_tokens matches Some(n) ==> n >= 0 ==> totals.input == n,
            usage.output_tokens matches Some(n) ==> n >= 0 ==> totals.output == n,
            usage.reasoning_output_tokens matches Some(n) ==> n >= 0 ==> totals.reasoning == n,
            usage.cached_input_tokens matches Some(n) ==> totals.cached >= n,
            usage.cache_read_input_tokens matches Some(n) ==> totals.cached >= n,
    {
        CodexTotals {
            input: reported_or_zero(usage.input_tokens),
            output: reported_or_zero(usage.output_tokens),
            cached: max_of(
                reported_or_zero(usage.cached_input_tokens),
                reported_or_zero(usage.cache_read_input_tokens),
            ),
            reasoning: reported_or_zero(usage.reasoning_output_tokens),
        }
    }

    /// The counters of `self` less those of `previous`.
    pub open spec fn less(self, previous: Self) -> Self {
        CodexTotals {
            input: (self.input - previous.input) as i64,
            output: (self.output - previous.output) as i64,
            cached: (self.cached - previous.cached) as i64,
            reasoning: (self.reasoning - previous.reasoning) as i64,
        }
    }

    /// Each difference of a counter of `self` and that of `previous` is an `i64`.
    pub open spec fn differences_fit(self, previous: Self) -> bool {
        &&& self.input - previous.input <= i64::MAX
        &&& self.output - previous.output <= i64::MAX
        &&& self.cached - previous.cached <= i64::MAX
        &&& self.reasoning - previous.reasoning <= i64::MAX
    }

    /// What was counted since `previous`; `None` where a counter went down.
    pub fn delta_from(self, previous: Self) -> (delta: Option<Self>)
        requires
            self.advances(previous) ==> self.differences_fit(previous),
        ensures
            delta == (if self.advances(previous) {
                Some(self.less(previous))
            } else {
                None
            }),
            delta is None <==> self.input < previous.input || self.output < previous.output
                || self.cached < previous.cached || self.reasoning < previous.reasoning,
            delta matches Some(delta) ==> {
                &&& previous.input + delta.input == self.input
                &&& previous.output + delta.output == self.output
                &&& previous.cached + delta.cached == self.cached
                &&& previous.reasoning + delta.reasoning == self.reasoning
            },
    {
        if self.input < previous.input || self.output < previous.output || self.cached
            < previous.cached || self.reasoning < previous.reasoning {
            return None;
        }
        Some(
            CodexTotals {
                input: self.input - previous.input,
                output: self.output - previous.output,
                cached: self.cached - previous.cached,
                reasoning: self.reasoning - previous.reasoning,
            },
        )
    }

    /// The counters of `self` and `other` added up, each held within `i64`.
    pub open spec fn plus(self, other: Self) -> Self {
        CodexTotals {
            input: saturated(self.input + other.input),
            output: saturated(self.output + other.output),
            cached: saturated(self.cached + other.cached),
            reasoning: saturated(self.reasoning + other.reasoning),
        }
    }

    /// The counters of `self` and `other` added up, each held within `i64`.
    pub fn saturating_add(self, other: Self) -> (sum: Self)
        ensures
            sum == self.plus(other),
    {
        CodexTotals {
            input: saturating_sum(self.input, other.input),
            output: saturating_sum(self.output, other.output),
            cached: saturating_sum(self.cached, other.cached),
            reasoning: saturating_sum(self.reasoning, other.reasoning),
        }
    }

    /// All counters added up, held within `i64` after each addition.
    pub open spec fn sum(self) -> i64 {
        saturated(saturated(saturated(self.input + self.output) + self.cached) + self.reasoning)
    }

    /// All counters added up, held within `i64`.
    pub fn total(self) -> (total: i64)
        ensures
            total == self.sum(),
            self.non_negative() ==> total == saturated(
                self.input + self.output + self.cached + self.reasoning,
            ),
    {
        saturating_sum(
            saturating_sum(saturating_sum(self.input, self.output), self.cached),
            self.reasoning,
        )
    }

    /// Whether `self` reads as an out-of-order report after `previous` rather than as a reset:
    /// nothing is empty, and the grand total is within two percent of the previous one, or within
    /// twice what `last` added.
    pub open spec fn is_stale(self, previous: Self, last: Self) -> bool {
        &&& previous.sum() > 0
        &&& self.sum() > 0
        &&& last.sum() > 0
        &&& {
            ||| saturated(self.sum() * 100) >= saturated(previous.sum() * 98)
            ||| saturated(self.sum() + saturated(last.sum() * 2)) >= previous.sum()
        }
    }

    /// Whether `self` reads as an out-of-order report after `previous` rather than as a reset.
    ///
    /// Some cumulative reports arrive slightly out of order: the grand total drops by roughly one
    /// recent increment and resumes from the true, higher mark with the next report. Taken for a
    /// reset, such a report would have `last` counted twice.
    pub fn looks_like_stale_regression(self, previous: Self, last: Self) -> (stale: bool)
        ensures
            stale == self.is_stale(previous, last),
    {
        let previous_total = previous.total();
        let current_total = self.total();
        let last_total = last.total();
        if previous_total <= 0 || current_total <= 0 || last_total <= 0 {
            return false;
        }
        saturating_product(current_total, 100) >= saturating_product(previous_total, 98)
            || saturating_sum(current_total, saturating_product(last_total, 2)) >= previous_total
    }

    /// The part of the input that came from the cache: never more than the input.
    pub open spec fn cache_share(self) -> i64 {
        if self.cached < self.input {
            larger(self.cached, 0)
        } else {
            larger(self.input, 0)
        }
    }

    /// The tokens of a message that `self` counts.
    pub open spec fn breakdown(self) -> TokenBreakdown {
        TokenBreakdown {
            input: (larger(self.input, 0) - self.cache_share()) as i64,
            output: larger(self.output, 0),
            cache_read: self.cache_share(),
            cache_write: 0,
            reasoning: larger(self.reasoning, 0),
        }
    }

    /// The tokens of a message that `self` counts. Cached tokens are held down to the input, so
    /// that malformed reports do not inflate the total.
    pub fn into_tokens(self) -> (tokens: TokenBreakdown)
        ensures
            tokens == self.breakdown(),
            tokens.non_negative(),
            tokens.input + tokens.cache_read == larger(self.input, 0),
            tokens.cache_read <= larger(self.cached, 0),
            self.output >= 0 ==> tokens.output == self.output,
            self.output < 0 ==> tokens.output == 0,
            self.reasoning >= 0 ==> tokens.reasoning == self.reasoning,
            self.reasoning < 0 ==> tokens.reasoning == 0,
            0 <= self.cached <= self.input ==> tokens.cache_read == self.cached,
            tokens.cache_write == 0,
    {
        let cache_read = max_of(
            if self.cached < self.input {
                self.cached
            } else {
                self.input
            },
            0,
        );
        TokenBreakdown {
            input: max_of(self.input - cache_read, 0),
            output: max_of(self.output, 0),
            cache_read,
            cache_write: 0,
            reasoning: max_of(self.reasoning, 0),
        }
    }
}

} // verus!
