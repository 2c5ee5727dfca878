use vstd::prelude::*;
use vstd::string::*;

verus! {

/// A trading action taken from a model's answer.
#[derive(PartialEq, Eq, Structural, Debug, Clone, Copy)]
pub enum SignalAction {
    Long,
    Short,
    Hold,
}

/// Supported language-model providers.
#[derive(PartialEq, Eq, Structural, Debug, Clone, Copy)]
pub enum LlmProvider {
    OpenAI,
}

/// A model's answer with its metadata.
pub struct LlmResponse {
    pub raw_response: String,
    pub model: String,
    pub tokens_used: Option<u32>,
    pub provider: LlmProvider,
}

/// `text` holds `pat` as a contiguous run.
pub open spec fn contains_seq(text: Seq<char>, pat: Seq<char>) -> bool {
    exists|i: int| 0 <= i && i + pat.len() <= text.len() && #[trigger] text.subrange(i, i + pat.len()) == pat
}

/// Relies on str::contains: true exactly when `pat` occurs in `s`.
#[verifier::external_body]
fn str_contains(s: &str, pat: &str) -> (r: bool)
    ensures
        r == contains_seq(s@, pat@),
{
    s.contains(pat)
}

/// The upper-case form of a text, as std's Unicode case mapping gives it.
pub uninterp spec fn upper_of(s: Seq<char>) -> Seq<char>;

/// Relies on str::to_uppercase: the result depends on the characters alone.
#[verifier::external_body]
fn uppercase(s: &str) -> (r: String)
    ensures
        r@ == upper_of(s@),
{
    s.to_uppercase()
}

/// The action an upper-cased answer names: LONG or SHORT where it names one
/// and not the other, HOLD otherwise (the cautious default).
pub open spec fn action_of(upper: Seq<char>) -> SignalAction {
    if contains_seq(upper, "LONG"@) && !contains_seq(upper, "SHORT"@) {
        SignalAction::Long
    } else if contains_seq(upper, "SHORT"@) && !contains_seq(upper, "LONG"@) {
        SignalAction::Short
    } else {
        SignalAction::Hold
    }
}

/// The action named by an answer that is already upper case.
pub fn action_from_upper(upper: &str) -> (r: SignalAction)
    ensures
        r == action_of(upper@),
{
    let has_long = str_contains(upper, "LONG");
    let has_short = str_contains(upper, "SHORT");
    if has_long && !has_short {
        SignalAction::Long
    } else if has_short && !has_long {
        SignalAction::Short
    } else {
        SignalAction::Hold
    }
}

/// The action named by a model's answer, read case-insensitively.
pub fn parse_signal(response: &LlmResponse) -> (r: SignalAction)
    ensures
        r == action_of(upper_of(response.raw_response@)),
{
    let text = uppercase(response.raw_response.as_str());
    action_from_upper(text.as_str())
}

/// Whether a new signal is due at `now_ms`: always for the first one
/// (`last_ms == 0`), else once `interval_ms` has passed since the last.
pub fn signal_due(now_ms: u64, last_ms: u64, interval_ms: u64) -> (r: bool)
    ensures
        r == (last_ms == 0 || (now_ms >= last_ms && now_ms - last_ms >= interval_ms)
            || (now_ms < last_ms && interval_ms == 0)),
{
    if last_ms == 0 {
        return true;
    }
    let elapsed = if now_ms >= last_ms { now_ms - last_ms } else { 0 };
    elapsed >= interval_ms
}

/// Configuration of the retrieval-augmented signal strategy.
pub struct LlmRagV1Config {
    /// Symbol to trade.
    pub symbol: String,
    /// Minimum time between signals, in milliseconds.
    pub signal_interval_ms: u64,
    /// Days to look back for similar patterns.
    pub lookback_days: u32,
    /// Similar patterns to retrieve.
    pub top_k: usize,
    /// Matches needed to use the retrieved context.
    pub min_matches: usize,
    /// Whether retrieval is used at all.
    pub rag_enabled: bool,
}

impl Default for LlmRagV1Config {
    fn default() -> (r: LlmRagV1Config)
        ensures
            r.symbol@ == "BTCUSDT"@,
            r.signal_interval_ms == 15 * 60 * 1000,
            r.lookback_days == 90,
            r.top_k == 5,
            r.min_matches == 3,
            r.rag_enabled,
    {
        LlmRagV1Config {
            symbol: String::from_str("BTCUSDT"),
            signal_interval_ms: 15 * 60 * 1000,
            lookback_days: 90,
            top_k: 5,
            min_matches: 3,
            rag_enabled: true,
        }
    }
}

/// Which prompt the strategy sends to the model.
#[derive(PartialEq, Eq, Structural, Debug, Clone, Copy)]
pub enum PromptKind {
    /// Current indicators only.
    Baseline,
    /// Current indicators with the retrieved historical patterns.
    WithHistory,
}

/// The first step of a signal request.
#[derive(PartialEq, Eq, Structural, Debug, Clone, Copy)]
pub enum SignalStep {
    /// Too soon after the last signal: no signal now.
    Skip,
    /// Retrieve similar patterns first.
    Retrieve { lookback_days: u32, top_k: usize },
    /// Go straight to the model with this prompt.
    Prompt(PromptKind),
}

/// The first step of a signal request at `now_ms`, the last signal having
/// been at `last_ms` (zero for none).
pub open spec fn first_step_of(config: LlmRagV1Config, now_ms: u64, last_ms: u64) -> SignalStep {
    if !(last_ms == 0 || (now_ms >= last_ms && now_ms - last_ms >= config.signal_interval_ms)
        || (now_ms < last_ms && config.signal_interval_ms == 0)) {
        SignalStep::Skip
    } else if config.rag_enabled {
        SignalStep::Retrieve { lookback_days: config.lookback_days, top_k: config.top_k }
    } else {
        SignalStep::Prompt(PromptKind::Baseline)
    }
}

/// Decides how a signal request starts: skipped while the interval since the
/// last signal has not passed, else with retrieval when it is enabled, else
/// with the baseline prompt.
pub fn first_step(config: &LlmRagV1Config, now_ms: u64, last_ms: u64) -> (r: SignalStep)
    ensures
        r == first_step_of(*config, now_ms, last_ms),
{
    if !signal_due(now_ms, last_ms, config.signal_interval_ms) {
        SignalStep::Skip
    } else if config.rag_enabled {
        SignalStep::Retrieve { lookback_days: config.lookback_days, top_k: config.top_k }
    } else {
        SignalStep::Prompt(PromptKind::Baseline)
    }
}

/// The prompt that follows a retrieval: `None` when retrieval failed, else
/// the number of matches it returned. A failure or no matches falls back to
/// the baseline prompt.
pub fn prompt_after_retrieval(matches_found: Option<usize>) -> (r: PromptKind)
    ensures
        r == (if matches_found matches Some(n) && n > 0 {
            PromptKind::WithHistory
        } else {
            PromptKind::Baseline
        }),
{
    match matches_found {
        Some(n) => if n > 0 { PromptKind::WithHistory } else { PromptKind::Baseline },
        None => PromptKind::Baseline,
    }
}

} // verus!
