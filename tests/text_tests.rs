use rag_patterns::embedding_text::{
    rich_text, FundingSentiment, Momentum, OiSentiment, RichTextParts, RsiAcceleration, RsiZone,
    Trend, VolatilityState,
};

fn base_parts() -> RichTextParts {
    RichTextParts {
        symbol: "BTCUSDT".to_string(),
        rsi_7: "75.0".to_string(),
        rsi_7_zone: RsiZone::Overbought,
        rsi_14: "72.0".to_string(),
        macd: "100.00".to_string(),
        macd_momentum: Momentum::Flat,
        macd_slope: "0.000".to_string(),
        ema_ratio: "1.0100".to_string(),
        trend: Trend::StrongUptrend,
        oi_sentiment: OiSentiment::RisingSignificantly,
        oi_delta: "+10.0".to_string(),
        funding: FundingSentiment::Neutral,
        rsi_acceleration: None,
        volatility: None,
        price_change_1h: None,
        price_change_4h: None,
    }
}

#[test]
fn test_embedding_text_generation() {
    let text = rich_text(&base_parts());
    assert!(text.contains("BTCUSDT"));
    assert!(text.contains("overbought"));
    assert!(text.contains("uptrend"));
    assert_eq!(
        text,
        "Market state for BTCUSDT: RSI(7) is 75.0, which is overbought. RSI(14) is 72.0. \
         MACD is 100.00. MACD momentum is flat (slope 0.000). \
         EMA(20)/EMA(50) ratio is 1.0100, indicating strong uptrend. \
         Open interest is rising significantly (+10.0% vs 24h average). Funding rate is neutral"
    );
}

#[test]
fn optional_sentences_follow_in_order() {
    let mut p = base_parts();
    p.rsi_acceleration = Some(RsiAcceleration::Down);
    p.volatility = Some(VolatilityState::Elevated);
    p.price_change_1h = Some("+0.75".to_string());
    p.price_change_4h = Some("-1.20".to_string());
    let text = rich_text(&p);
    assert!(text.ends_with(
        "Funding rate is neutral. RSI momentum is accelerating down. Volatility is elevated. \
         Price changed +0.75% in the last hour. Price changed -1.20% in the last 4 hours"
    ));
}

#[test]
fn equal_parts_give_identical_text() {
    assert_eq!(rich_text(&base_parts()), rich_text(&base_parts()));
}

#[test]
fn rsi_zone_words() {
    assert_eq!(RsiZone::ExtremelyOverbought.text(), "extremely overbought");
    assert_eq!(RsiZone::Overbought.text(), "overbought");
    assert_eq!(RsiZone::BullishTerritory.text(), "bullish territory");
    assert_eq!(RsiZone::Neutral.text(), "neutral");
    assert_eq!(RsiZone::BearishTerritory.text(), "bearish territory");
    assert_eq!(RsiZone::Oversold.text(), "oversold");
    assert_eq!(RsiZone::ExtremelyOversold.text(), "extremely oversold");
}

#[test]
fn sentiment_words() {
    let mut p = base_parts();
    p.macd_momentum = Momentum::Rising;
    p.trend = Trend::StrongDowntrend;
    p.oi_sentiment = OiSentiment::DroppingSignificantly;
    p.funding = FundingSentiment::HighlyPositive;
    let text = rich_text(&p);
    assert!(text.contains("MACD momentum is rising"));
    assert!(text.contains("indicating strong downtrend"));
    assert!(text.contains("Open interest is dropping significantly"));
    assert!(text.contains("Funding rate is highly positive (longs paying shorts)"));
    p.funding = FundingSentiment::HighlyNegative;
    p.trend = Trend::Sideways;
    p.oi_sentiment = OiSentiment::Stable;
    p.macd_momentum = Momentum::Falling;
    let text = rich_text(&p);
    assert!(text.contains("highly negative (shorts paying longs)"));
    assert!(text.contains("indicating sideways"));
    assert!(text.contains("Open interest is stable"));
    assert!(text.contains("MACD momentum is falling"));
}

#[test]
fn test_simple_embedding_text() {
    let parts = rag_patterns::embedding_text::SimpleTextParts {
        symbol: "ETHUSDT".to_string(),
        price: "3000.0".to_string(),
        rsi_7: "0.0".to_string(),
        rsi_14: "0.0".to_string(),
        macd: "0.00".to_string(),
        ema_ratio: "1.0000".to_string(),
        oi_delta: "+0.0".to_string(),
        funding: "0.000000".to_string(),
        atr_14: "0.00".to_string(),
        price_change_1h: "+0.00".to_string(),
        price_change_4h: "+0.00".to_string(),
    };
    let text = rag_patterns::embedding_text::simple_text(&parts);
    assert!(text.contains("ETHUSDT"));
    assert!(text.contains("3000.0"));
    assert_eq!(
        text,
        "Symbol: ETHUSDT, Price: 3000.0, RSI(7): 0.0, RSI(14): 0.0, MACD: 0.00, \
         EMA Ratio 20/50: 1.0000, OI Delta: +0.0%, Funding: 0.000000, \
         ATR(14): 0.00, Price Change 1h: +0.00%, Price Change 4h: +0.00%"
    );
}
