use vstd::prelude::*;

verus! {

/// The sign of a forward outcome.
#[derive(PartialEq, Eq, Structural, Debug, Clone, Copy)]
pub enum Sign {
    Negative,
    Zero,
    Positive,
}

/// What the statistics kernel counts of one match: the sign of its 4-hour
/// outcome, where there is one, and its stop-loss and take-profit flags.
#[derive(PartialEq, Eq, Structural, Debug, Clone, Copy)]
pub struct MatchSummary {
    pub outcome_4h: Option<Sign>,
    pub hit_stop_loss: Option<bool>,
    pub hit_take_profit: Option<bool>,
}

/// The counts over a batch of matches.
#[derive(PartialEq, Eq, Structural, Debug, Clone, Copy)]
pub struct OutcomeCounts {
    pub total_matches: usize,
    pub outcomes_present: usize,
    pub positive_count: usize,
    pub negative_count: usize,
    pub stop_loss_hits: usize,
    pub take_profit_hits: usize,
}

/// How many elements of `s` satisfy `p`.
pub open spec fn count_where(s: Seq<MatchSummary>, p: spec_fn(MatchSummary) -> bool) -> nat
    decreases s.len(),
{
    if s.len() == 0 {
        0
    } else {
        count_where(s.drop_last(), p) + (if p(s.last()) { 1nat } else { 0nat })
    }
}

pub open spec fn has_outcome(m: MatchSummary) -> bool {
    m.outcome_4h is Some
}

pub open spec fn is_positive(m: MatchSummary) -> bool {
    m.outcome_4h == Some(Sign::Positive)
}

pub open spec fn is_negative(m: MatchSummary) -> bool {
    m.outcome_4h == Some(Sign::Negative)
}

pub open spec fn hit_stop(m: MatchSummary) -> bool {
    m.hit_stop_loss == Some(true)
}

pub open spec fn hit_target(m: MatchSummary) -> bool {
    m.hit_take_profit == Some(true)
}

/// The counts that the statistics kernel reports over `s`.
pub open spec fn counts_of(s: Seq<MatchSummary>) -> OutcomeCounts {
    OutcomeCounts {
        total_matches: s.len() as usize,
        outcomes_present: count_where(s, |m: MatchSummary| has_outcome(m)) as usize,
        positive_count: count_where(s, |m: MatchSummary| is_positive(m)) as usize,
        negative_count: count_where(s, |m: MatchSummary| is_negative(m)) as usize,
        stop_loss_hits: count_where(s, |m: MatchSummary| hit_stop(m)) as usize,
        take_profit_hits: count_where(s, |m: MatchSummary| hit_target(m)) as usize,
    }
}

proof fn count_where_le_len(s: Seq<MatchSummary>, p: spec_fn(MatchSummary) -> bool)
    ensures
        count_where(s, p) <= s.len(),
    decreases s.len(),
{
    if s.len() > 0 {
        count_where_le_len(s.drop_last(), p);
    }
}

/// Positive and negative outcomes together never outnumber the outcomes that
/// are present, nor those the matches: a zero outcome counts as neither.
pub proof fn signed_outcomes_bounded(s: Seq<MatchSummary>)
    ensures
        count_where(s, |m: MatchSummary| is_positive(m)) + count_where(
            s,
            |m: MatchSummary| is_negative(m),
        ) <= count_where(s, |m: MatchSummary| has_outcome(m)),
        count_where(s, |m: MatchSummary| has_outcome(m)) <= s.len(),
    decreases s.len(),
{
    count_where_le_len(s, |m: MatchSummary| has_outcome(m));
    if s.len() > 0 {
        signed_outcomes_bounded(s.drop_last());
    }
}

/// Counts, over a batch of matches, the outcomes present, their signs, and
/// the stop-loss and take-profit hits.
pub fn count_outcomes(matches: &Vec<MatchSummary>) -> (r: OutcomeCounts)
    ensures
        r == counts_of(matches@),
        r.positive_count + r.negative_count <= r.outcomes_present,
        r.outcomes_present <= r.total_matches,
{
    let mut present: usize = 0;
    let mut positive: usize = 0;
    let mut negative: usize = 0;
    let mut stops: usize = 0;
    let mut targets: usize = 0;
    let mut i: usize = 0;
    while i < matches.len()
        invariant
            i <= matches@.len(),
            present == count_where(matches@.subrange(0, i as int), |m: MatchSummary| has_outcome(m)),
            positive == count_where(matches@.subrange(0, i as int), |m: MatchSummary| is_positive(m)),
            negative == count_where(matches@.subrange(0, i as int), |m: MatchSummary| is_negative(m)),
            stops == count_where(matches@.subrange(0, i as int), |m: MatchSummary| hit_stop(m)),
            targets == count_where(matches@.subrange(0, i as int), |m: MatchSummary| hit_target(m)),
        decreases matches@.len() - i,
    {
        let m = matches[i];
        let ghost prefix = matches@.subrange(0, i as int);
        let ghost next = matches@.subrange(0, i + 1);
        proof {
            assert(next.drop_last() =~= prefix);
            assert(next.last() == m);
            count_where_le_len(prefix, |m: MatchSummary| has_outcome(m));
            count_where_le_len(prefix, |m: MatchSummary| is_positive(m));
            count_where_le_len(prefix, |m: MatchSummary| is_negative(m));
            count_where_le_len(prefix, |m: MatchSummary| hit_stop(m));
            count_where_le_len(prefix, |m: MatchSummary| hit_target(m));
        }
        match m.outcome_4h {
            Some(sign) => {
                present = present + 1;
                match sign {
                    Sign::Positive => { positive = positive + 1; },
                    Sign::Negative => { negative = negative + 1; },
                    Sign::Zero => {},
                }
            },
            None => {},
        }
        if m.hit_stop_loss == Some(true) {
            stops = stops + 1;
        }
        if m.hit_take_profit == Some(true) {
            targets = targets + 1;
        }
        i = i + 1;
    }
    proof {
        assert(matches@.subrange(0, matches@.len() as int) =~= matches@);
        signed_outcomes_bounded(matches@);
    }
    OutcomeCounts {
        total_matches: matches.len(),
        outcomes_present: present,
        positive_count: positive,
        negative_count: negative,
        stop_loss_hits: stops,
        take_profit_hits: targets,
    }
}

/// The index of the `pct` percentile in `n` sorted values, `floor(n * pct / 100)`:
/// the median is at `n / 2`, the tenth percentile at `floor(n / 10)`.
pub fn percentile_index(n: usize, pct: usize) -> (r: usize)
    requires
        n > 0,
        pct < 100,
    ensures
        r == n * pct / 100,
        r < n,
{
    let a: u128 = n as u128;
    let b: u128 = pct as u128;
    assert(a * b <= 0xffff_ffff_ffff_ffffu128 * 100) by (nonlinear_arith)
        requires a <= 0xffff_ffff_ffff_ffffu128, b < 100;
    let r: u128 = a * b / 100;
    proof {
        assert((n as int) * (pct as int) < (n as int) * 100) by (nonlinear_arith)
            requires n > 0, pct < 100;
        assert((n as int) * (pct as int) / 100 < n) by (nonlinear_arith)
            requires (n as int) * (pct as int) < (n as int) * 100, n > 0;
    }
    r as usize
}

/// The index that rounds `pct / 100 * (len - 1)` to the nearest integer, a
/// half rounded up, within `len` sorted values.
pub fn nearest_rank_index(len: usize, pct: usize) -> (r: usize)
    requires
        len > 0,
        pct <= 100,
    ensures
        r == (2 * pct * (len - 1) + 100) / 200,
        r < len,
{
    let m: u128 = (len - 1) as u128;
    let b: u128 = 2 * (pct as u128);
    assert(b * m <= 200 * 0xffff_ffff_ffff_ffffu128) by (nonlinear_arith)
        requires m <= 0xffff_ffff_ffff_ffffu128, b <= 200;
    let r: u128 = (b * m + 100) / 200;
    proof {
        assert(2 * (pct as int) * (m as int) <= 200 * (m as int)) by (nonlinear_arith)
            requires pct <= 100, m >= 0;
        assert((2 * (pct as int) * (m as int) + 100) / 200 <= m) by (nonlinear_arith)
            requires 2 * (pct as int) * (m as int) <= 200 * (m as int), m >= 0;
    }
    r as usize
}

} // verus!
