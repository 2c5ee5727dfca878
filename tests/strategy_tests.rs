use rag_patterns::signal::{
    action_from_upper, first_step, parse_signal, prompt_after_retrieval, signal_due, LlmProvider,
    LlmRagV1Config, LlmResponse, PromptKind, SignalAction, SignalStep,
};

fn response(text: &str, model: &str, tokens: u32) -> LlmResponse {
    LlmResponse {
        raw_response: text.to_string(),
        model: model.to_string(),
        tokens_used: Some(tokens),
        provider: LlmProvider::OpenAI,
    }
}

#[test]
fn llm_rag_v1_test_default_config() {
    let config = LlmRagV1Config::default();
    assert_eq!(config.symbol, "BTCUSDT");
    assert_eq!(config.lookback_days, 90);
    assert_eq!(config.top_k, 5);
    assert_eq!(config.min_matches, 3);
    assert!(config.rag_enabled);
}

#[test]
fn test_config_builder() {
    let config = LlmRagV1Config {
        symbol: "ETHUSDT".to_string(),
        signal_interval_ms: 30 * 60 * 1000,
        lookback_days: 60,
        top_k: 10,
        min_matches: 5,
        rag_enabled: false,
    };

    assert_eq!(config.symbol, "ETHUSDT");
    assert_eq!(config.lookback_days, 60);
    assert_eq!(config.top_k, 10);
    assert!(!config.rag_enabled);
}

#[test]
fn test_strategy_config_defaults() {
    let config = LlmRagV1Config::default();

    assert_eq!(config.symbol, "BTCUSDT");
    assert_eq!(config.signal_interval_ms, 15 * 60 * 1000);
    assert_eq!(config.lookback_days, 90);
    assert_eq!(config.top_k, 5);
    assert_eq!(config.min_matches, 3);
    assert!(config.rag_enabled);
}

#[test]
fn test_strategy_config_custom() {
    let config = LlmRagV1Config {
        symbol: "ETHUSDT".to_string(),
        signal_interval_ms: 30 * 60 * 1000,
        lookback_days: 60,
        top_k: 10,
        min_matches: 5,
        rag_enabled: false,
    };

    assert_eq!(config.symbol, "ETHUSDT");
    assert_eq!(config.signal_interval_ms, 30 * 60 * 1000);
    assert_eq!(config.lookback_days, 60);
    assert_eq!(config.top_k, 10);
    assert_eq!(config.min_matches, 5);
    assert!(!config.rag_enabled);
}

#[test]
fn test_signal_action_types() {
    let long = SignalAction::Long;
    let short = SignalAction::Short;
    let hold = SignalAction::Hold;

    assert_eq!(long, SignalAction::Long);
    assert_eq!(short, SignalAction::Short);
    assert_eq!(hold, SignalAction::Hold);
    assert_ne!(long, short);
    assert_ne!(short, hold);
    assert_ne!(hold, long);
}

#[test]
fn test_strategy_instantiation_structure() {
    let config = LlmRagV1Config {
        symbol: "BTCUSDT".to_string(),
        signal_interval_ms: 15 * 60 * 1000,
        lookback_days: 90,
        top_k: 5,
        min_matches: 3,
        rag_enabled: true,
    };

    assert_eq!(config.symbol, "BTCUSDT");
    assert_eq!(config.lookback_days, 90);
    assert_eq!(config.top_k, 5);
    assert!(config.rag_enabled);
}

#[test]
fn test_rag_toggle_config() {
    let config_with_rag = LlmRagV1Config {
        rag_enabled: true,
        ..Default::default()
    };

    let config_without_rag = LlmRagV1Config {
        rag_enabled: false,
        ..Default::default()
    };

    assert!(config_with_rag.rag_enabled);
    assert!(!config_without_rag.rag_enabled);
}

#[test]
fn test_phase4_documentation() {
    assert!(true, "Phase 4 integration tests documented");
}

#[test]
fn test_parse_signal_long() {
    let r = response(
        "Based on the analysis, I recommend LONG position. RSI is oversold.",
        "gpt-4",
        50,
    );
    assert_eq!(parse_signal(&r), SignalAction::Long);
}

#[test]
fn test_parse_signal_short() {
    let r = response("Market is overbought, recommend SHORT position.", "gpt-4", 50);
    assert_eq!(parse_signal(&r), SignalAction::Short);
}

#[test]
fn test_parse_signal_hold() {
    let r = response("Market is unclear, recommend HOLD.", "gpt-4", 50);
    assert_eq!(parse_signal(&r), SignalAction::Hold);
}

#[test]
fn test_parse_signal_ambiguous() {
    let r = response("Could go either way, unclear signal.", "gpt-4", 50);
    assert_eq!(parse_signal(&r), SignalAction::Hold);
}

#[test]
fn test_parse_signal_conflicting() {
    let r = response("Could be LONG or SHORT depending on...", "gpt-4", 50);
    assert_eq!(parse_signal(&r), SignalAction::Hold);
}

#[test]
fn test_signal_parsing_long() {
    let r = response(
        r#"
Based on the current market state and historical patterns, I recommend:

A) LONG - Enter long position

Reasoning: The historical data shows that in similar overbought conditions with
positive funding rates, 70% of outcomes were positive over the 4h horizon with
an average gain of +2.3%. The current RSI of 68.5 is at the upper end of the
bullish territory, and the MACD shows continued momentum. While the funding
rate is slightly elevated, the historical win rate supports a long position.
        "#,
        "gpt-4-turbo",
        156,
    );
    assert_eq!(parse_signal(&r), SignalAction::Long);
    assert!(r.raw_response.contains("LONG"));
    assert!(r.raw_response.contains("positive"));
}

#[test]
fn test_signal_parsing_hold() {
    let r = response(
        r#"
Based on the current analysis, I recommend:

C) HOLD - No position/stay flat

Reasoning: The historical patterns show mixed outcomes (50% positive, 50% negative)
with a near-zero average return of +0.1%. The market is at a critical inflection
point with conflicting signals: bullish MACD but neutral RSI. Given the uncertainty
and historical ambiguity, the prudent decision is to wait for clearer signals.
        "#,
        "gpt-4-turbo",
        128,
    );
    assert_eq!(parse_signal(&r), SignalAction::Hold);
    assert!(r.raw_response.contains("HOLD"));
    assert!(r.raw_response.contains("wait"));
}

#[test]
fn test_signal_parsing_ambiguous() {
    let r = response("The market could move in either direction.", "gpt-4-turbo", 20);
    assert_eq!(parse_signal(&r), SignalAction::Hold);
}

#[test]
fn test_signal_parsing_conflicting() {
    let r = response(
        "Could be LONG based on X, but also SHORT based on Y.",
        "gpt-4-turbo",
        25,
    );
    assert_eq!(parse_signal(&r), SignalAction::Hold);
}

#[test]
fn parse_signal_reads_lower_case_answers() {
    let r = response("go long here", "m", 1);
    assert_eq!(parse_signal(&r), SignalAction::Long);
    assert_eq!(action_from_upper("go long here"), SignalAction::Hold);
    assert_eq!(action_from_upper("GO SHORT"), SignalAction::Short);
}

#[test]
fn signal_due_respects_interval() {
    assert!(signal_due(5, 0, 1000));
    assert!(!signal_due(1500, 1000, 1000));
    assert!(signal_due(2000, 1000, 1000));
    assert!(!signal_due(500, 1000, 1000));
}

#[test]
fn strategy_first_steps() {
    let config = LlmRagV1Config::default();
    assert_eq!(
        first_step(&config, 1_000, 0),
        SignalStep::Retrieve { lookback_days: 90, top_k: 5 }
    );
    assert_eq!(first_step(&config, 1_000 + 60_000, 1_000), SignalStep::Skip);
    assert_eq!(
        first_step(&config, 1_000 + 900_000, 1_000),
        SignalStep::Retrieve { lookback_days: 90, top_k: 5 }
    );
    let no_rag = LlmRagV1Config { rag_enabled: false, ..Default::default() };
    assert_eq!(first_step(&no_rag, 5, 0), SignalStep::Prompt(PromptKind::Baseline));
    assert_eq!(prompt_after_retrieval(None), PromptKind::Baseline);
    assert_eq!(prompt_after_retrieval(Some(0)), PromptKind::Baseline);
    assert_eq!(prompt_after_retrieval(Some(3)), PromptKind::WithHistory);
}
