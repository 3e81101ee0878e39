//! Counting token reports against the cumulative totals of a session.

use crate::entry::{extract_model, CodexInfo, CodexPayload};
use crate::text::{copy_text, first_of, or_text, text_of};
use crate::tokens::{CodexTokenUsage, CodexTotals, TokenBreakdown};
use vstd::prelude::*;

verus! {

/// The model of a session that names none.
pub const UNKNOWN_MODEL: &'static str = "unknown";

/// A baseline holds no negative counter.
pub open spec fn sound_baseline(baseline: Option<CodexTotals>) -> bool {
    baseline matches Some(totals) ==> totals.non_negative()
}

/// What an optional usage report counts.
pub open spec fn usage_totals(usage: Option<CodexTokenUsage>) -> Option<CodexTotals> {
    match usage {
        Some(usage) => Some(CodexTotals::of_usage(usage)),
        None => None,
    }
}

/// Nothing was used.
pub open spec fn nothing_used(tokens: TokenBreakdown) -> bool {
    tokens.input == 0 && tokens.output == 0 && tokens.cache_read == 0 && tokens.reasoning == 0
}

/// What one token report does: the tokens that it adds, if any, and the baseline after it.
#[derive(Debug, Clone, Copy)]
pub struct Counted {
    pub tokens: Option<TokenBreakdown>,
    pub baseline: Option<CodexTotals>,
}

/// A report that adds nothing and leaves the baseline.
pub open spec fn skipped(previous: Option<CodexTotals>) -> Counted {
    Counted { tokens: None, baseline: previous }
}

/// A report that adds `increment` and moves the baseline to `next`, unless nothing was used.
pub open spec fn added(
    increment: CodexTotals,
    next: Option<CodexTotals>,
    previous: Option<CodexTotals>,
) -> Counted {
    if nothing_used(increment.breakdown()) {
        skipped(previous)
    } else {
        Counted { tokens: Some(increment.breakdown()), baseline: next }
    }
}

/// What a report of the cumulative totals `total` and of the latest increment `last` does after
/// the baseline `previous`.
pub open spec fn count_report(
    total: Option<CodexTotals>,
    last: Option<CodexTotals>,
    previous: Option<CodexTotals>,
) -> Counted {
    match (total, last, previous) {
        // A repeated or an out-of-order report is passed over; any other adds its increment.
        (Some(total), Some(last), Some(base)) => if total == base || (!total.advances(base)
            && total.is_stale(base, last)) {
            skipped(previous)
        } else {
            added(last, Some(total), previous)
        },
        (Some(total), Some(last), None) => added(last, Some(total), previous),
        // Without an increment, the growth of the totals is one; a reset only moves the baseline.
        (Some(total), None, Some(base)) => if total == base {
            skipped(previous)
        } else if total.advances(base) {
            added(total.less(base), Some(total), previous)
        } else {
            Counted { tokens: None, baseline: Some(total) }
        },
        (Some(total), None, None) => added(total, Some(total), previous),
        // Without totals, the increment moves the baseline where there is one.
        (None, Some(last), Some(base)) => added(last, Some(base.plus(last)), previous),
        (None, Some(last), None) => added(last, None, previous),
        (None, None, _) => skipped(previous),
    }
}

/// The model of the session after a token report: the one that the payload names, and over it the
/// one that its counters name.
pub open spec fn model_after_report(payload: CodexPayload, current: Option<Seq<char>>) -> Option<
    Seq<char>,
> {
    let named = first_of(payload.named_model(), current);
    match payload.info {
        Some(info) => first_of(first_of(text_of(info.model), text_of(info.model_name)), named),
        None => named,
    }
}

/// What the counters of a payload do after the baseline `previous`.
pub open spec fn count_payload(payload: CodexPayload, previous: Option<CodexTotals>) -> Counted {
    match payload.info {
        Some(info) => count_report(
            usage_totals(info.total_token_usage),
            usage_totals(info.last_token_usage),
            previous,
        ),
        None => skipped(previous),
    }
}

fn usage_counters(usage: &Option<CodexTokenUsage>) -> (totals: Option<CodexTotals>)
    ensures
        totals == usage_totals(*usage),
        sound_baseline(totals),
{
    match usage {
        Some(usage) => Some(CodexTotals::from_usage(usage)),
        None => None,
    }
}

fn count_increment(
    increment: CodexTotals,
    next: Option<CodexTotals>,
    previous: Option<CodexTotals>,
) -> (counted: Counted)
    ensures
        counted == added(increment, next, previous),
{
    let tokens = increment.into_tokens();
    if tokens.input == 0 && tokens.output == 0 && tokens.cache_read == 0 && tokens.reasoning == 0 {
        Counted { tokens: None, baseline: previous }
    } else {
        Counted { tokens: Some(tokens), baseline: next }
    }
}

/// What a report of the cumulative totals `total` and of the latest increment `last` does after
/// the baseline `previous`.
pub fn count_token_report(
    total: Option<CodexTotals>,
    last: Option<CodexTotals>,
    previous: Option<CodexTotals>,
) -> (counted: Counted)
    requires
        sound_baseline(total),
        sound_baseline(last),
        sound_baseline(previous),
    ensures
        counted == count_report(total, last, previous),
        sound_baseline(counted.baseline),
{
    match (total, last, previous) {
        (Some(total), Some(last), Some(base)) => {
            if total == base {
                return Counted { tokens: None, baseline: previous };
            }
            if total.delta_from(base).is_none() && total.looks_like_stale_regression(base, last) {
                return Counted { tokens: None, baseline: previous };
            }
            count_increment(last, Some(total), previous)
        },
        (Some(total), Some(last), None) => count_increment(last, Some(total), previous),
        (Some(total), None, Some(base)) => {
            if total == base {
                return Counted { tokens: None, baseline: previous };
            }
            match total.delta_from(base) {
                Some(delta) => count_increment(delta, Some(total), previous),
                None => Counted { tokens: None, baseline: Some(total) },
            }
        },
        (Some(total), None, None) => count_increment(total, Some(total), previous),
        (None, Some(last), Some(base)) => count_increment(
            last,
            Some(base.saturating_add(last)),
            previous,
        ),
        (None, Some(last), None) => count_increment(last, None, previous),
        (None, None, _) => Counted { tokens: None, baseline: previous },
    }
}

/// Counts the token report in `payload`: gives the session's model and the tokens that the report
/// adds, and moves the session's model and baseline.
pub fn parse_token_count_payload(
    payload: &CodexPayload,
    current_model: &mut Option<String>,
    previous_totals: &mut Option<CodexTotals>,
) -> (report: Option<(String, TokenBreakdown)>)
    requires
        sound_baseline(*old(previous_totals)),
    ensures
        text_of(*final(current_model)) == model_after_report(*payload, text_of(*old(current_model))),
        *final(previous_totals) == count_payload(*payload, *old(previous_totals)).baseline,
        sound_baseline(*final(previous_totals)),
        (match report {
            Some((model, tokens)) => {
                &&& count_payload(*payload, *old(previous_totals)).tokens == Some(tokens)
                &&& model@ == or_text(text_of(*final(current_model)), UNKNOWN_MODEL@)
            },
            None => count_payload(*payload, *old(previous_totals)).tokens is None,
        }),
{
    let named = extract_model(payload);
    if named.is_some() {
        *current_model = named;
    }
    let info: &CodexInfo = match &payload.info {
        Some(info) => info,
        None => return None,
    };
    let counter_model = copy_text(
        if info.model.is_some() {
            &info.model
        } else {
            &info.model_name
        },
    );
    if counter_model.is_some() {
        *current_model = counter_model;
    }
    let counted = count_token_report(
        usage_counters(&info.total_token_usage),
        usage_counters(&info.last_token_usage),
        *previous_totals,
    );
    *previous_totals = counted.baseline;
    match counted.tokens {
        Some(tokens) => {
            let model = match current_model {
                Some(model) => model.clone(),
                None => UNKNOWN_MODEL.to_string(),
            };
            Some((model, tokens))
        },
        None => None,
    }
}

} // verus!
