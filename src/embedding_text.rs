use vstd::prelude::*;
use vstd::string::*;

verus! {

/// Interpretation bucket of an RSI value.
#[derive(PartialEq, Eq, Structural, Debug, Clone, Copy)]
pub enum RsiZone {
    ExtremelyOverbought,
    Overbought,
    BullishTerritory,
    Neutral,
    BearishTerritory,
    Oversold,
    ExtremelyOversold,
}

/// Direction of the MACD series.
#[derive(PartialEq, Eq, Structural, Debug, Clone, Copy)]
pub enum Momentum {
    Rising,
    Falling,
    Flat,
}

/// Trend read from the EMA(20)/EMA(50) ratio.
#[derive(PartialEq, Eq, Structural, Debug, Clone, Copy)]
pub enum Trend {
    StrongUptrend,
    StrongDowntrend,
    Sideways,
}

/// Open-interest sentiment read from its change against the daily average.
#[derive(PartialEq, Eq, Structural, Debug, Clone, Copy)]
pub enum OiSentiment {
    RisingSignificantly,
    DroppingSignificantly,
    Stable,
}

/// Funding-rate sentiment.
#[derive(PartialEq, Eq, Structural, Debug, Clone, Copy)]
pub enum FundingSentiment {
    HighlyPositive,
    HighlyNegative,
    Neutral,
}

/// Direction of a steep RSI slope.
#[derive(PartialEq, Eq, Structural, Debug, Clone, Copy)]
pub enum RsiAcceleration {
    Up,
    Down,
}

/// Short-term against standard volatility.
#[derive(PartialEq, Eq, Structural, Debug, Clone, Copy)]
pub enum VolatilityState {
    Elevated,
    Normal,
}

pub open spec fn rsi_zone_text(z: RsiZone) -> Seq<char> {
    match z {
        RsiZone::ExtremelyOverbought => "extremely overbought"@,
        RsiZone::Overbought => "overbought"@,
        RsiZone::BullishTerritory => "bullish territory"@,
        RsiZone::Neutral => "neutral"@,
        RsiZone::BearishTerritory => "bearish territory"@,
        RsiZone::Oversold => "oversold"@,
        RsiZone::ExtremelyOversold => "extremely oversold"@,
    }
}

pub open spec fn momentum_text(m: Momentum) -> Seq<char> {
    match m {
        Momentum::Rising => "rising"@,
        Momentum::Falling => "falling"@,
        Momentum::Flat => "flat"@,
    }
}

pub open spec fn trend_text(t: Trend) -> Seq<char> {
    match t {
        Trend::StrongUptrend => "strong uptrend"@,
        Trend::StrongDowntrend => "strong downtrend"@,
        Trend::Sideways => "sideways"@,
    }
}

pub open spec fn oi_text(o: OiSentiment) -> Seq<char> {
    match o {
        OiSentiment::RisingSignificantly => "rising significantly"@,
        OiSentiment::DroppingSignificantly => "dropping significantly"@,
        OiSentiment::Stable => "stable"@,
    }
}

pub open spec fn funding_text(f: FundingSentiment) -> Seq<char> {
    match f {
        FundingSentiment::HighlyPositive => "highly positive (longs paying shorts)"@,
        FundingSentiment::HighlyNegative => "highly negative (shorts paying longs)"@,
        FundingSentiment::Neutral => "neutral"@,
    }
}

pub open spec fn acceleration_text(a: RsiAcceleration) -> Seq<char> {
    match a {
        RsiAcceleration::Up => "accelerating up"@,
        RsiAcceleration::Down => "accelerating down"@,
    }
}

pub open spec fn volatility_text(v: VolatilityState) -> Seq<char> {
    match v {
        VolatilityState::Elevated => "elevated"@,
        VolatilityState::Normal => "normal"@,
    }
}

impl RsiZone {
    /// The words that describe this zone.
    pub fn text(&self) -> (r: &'static str)
        ensures
            r@ == rsi_zone_text(*self),
    {
        match self {
            RsiZone::ExtremelyOverbought => "extremely overbought",
            RsiZone::Overbought => "overbought",
            RsiZone::BullishTerritory => "bullish territory",
            RsiZone::Neutral => "neutral",
            RsiZone::BearishTerritory => "bearish territory",
            RsiZone::Oversold => "oversold",
            RsiZone::ExtremelyOversold => "extremely oversold",
        }
    }
}

fn momentum_str(m: Momentum) -> (r: &'static str)
    ensures
        r@ == momentum_text(m),
{
    match m {
        Momentum::Rising => "rising",
        Momentum::Falling => "falling",
        Momentum::Flat => "flat",
    }
}

fn trend_str(t: Trend) -> (r: &'static str)
    ensures
        r@ == trend_text(t),
{
    match t {
        Trend::StrongUptrend => "strong uptrend",
        Trend::StrongDowntrend => "strong downtrend",
        Trend::Sideways => "sideways",
    }
}

fn oi_str(o: OiSentiment) -> (r: &'static str)
    ensures
        r@ == oi_text(o),
{
    match o {
        OiSentiment::RisingSignificantly => "rising significantly",
        OiSentiment::DroppingSignificantly => "dropping significantly",
        OiSentiment::Stable => "stable",
    }
}

fn funding_str(f: FundingSentiment) -> (r: &'static str)
    ensures
        r@ == funding_text(f),
{
    match f {
        FundingSentiment::HighlyPositive => "highly positive (longs paying shorts)",
        FundingSentiment::HighlyNegative => "highly negative (shorts paying longs)",
        FundingSentiment::Neutral => "neutral",
    }
}

fn acceleration_str(a: RsiAcceleration) -> (r: &'static str)
    ensures
        r@ == acceleration_text(a),
{
    match a {
        RsiAcceleration::Up => "accelerating up",
        RsiAcceleration::Down => "accelerating down",
    }
}

fn volatility_str(v: VolatilityState) -> (r: &'static str)
    ensures
        r@ == volatility_text(v),
{
    match v {
        VolatilityState::Elevated => "elevated",
        VolatilityState::Normal => "normal",
    }
}

/// What the descriptive embedding text says of a snapshot: its numbers, each
/// already rendered at its fixed precision, and the buckets they fall in.
/// An optional sentence is present exactly when its field is.
pub struct RichTextParts {
    pub symbol: String,
    /// RSI(7) to one decimal.
    pub rsi_7: String,
    pub rsi_7_zone: RsiZone,
    /// RSI(14) to one decimal.
    pub rsi_14: String,
    /// MACD to two decimals.
    pub macd: String,
    pub macd_momentum: Momentum,
    /// MACD slope to three decimals.
    pub macd_slope: String,
    /// EMA(20)/EMA(50) ratio to four decimals.
    pub ema_ratio: String,
    pub trend: Trend,
    pub oi_sentiment: OiSentiment,
    /// Signed open-interest change, in percent, to one decimal.
    pub oi_delta: String,
    pub funding: FundingSentiment,
    pub rsi_acceleration: Option<RsiAcceleration>,
    pub volatility: Option<VolatilityState>,
    /// Signed one-hour price change, in percent, to two decimals.
    pub price_change_1h: Option<String>,
    /// Signed four-hour price change, in percent, to two decimals.
    pub price_change_4h: Option<String>,
}

/// The sentences of the descriptive text, in their fixed order.
pub open spec fn sentences_of(p: RichTextParts) -> Seq<Seq<char>> {
    let base = seq![
        "RSI(7) is "@ + p.rsi_7@ + ", which is "@ + rsi_zone_text(p.rsi_7_zone),
        "RSI(14) is "@ + p.rsi_14@,
        "MACD is "@ + p.macd@,
        "MACD momentum is "@ + momentum_text(p.macd_momentum) + " (slope "@ + p.macd_slope@ + ")"@,
        "EMA(20)/EMA(50) ratio is "@ + p.ema_ratio@ + ", indicating "@ + trend_text(p.trend),
        "Open interest is "@ + oi_text(p.oi_sentiment) + " ("@ + p.oi_delta@ + "% vs 24h average)"@,
        "Funding rate is "@ + funding_text(p.funding),
    ];
    let with_accel = match p.rsi_acceleration {
        Some(a) => base.push("RSI momentum is "@ + acceleration_text(a)),
        None => base,
    };
    let with_vol = match p.volatility {
        Some(v) => with_accel.push("Volatility is "@ + volatility_text(v)),
        None => with_accel,
    };
    let with_1h = match p.price_change_1h {
        Some(c) => with_vol.push("Price changed "@ + c@ + "% in the last hour"@),
        None => with_vol,
    };
    match p.price_change_4h {
        Some(c) => with_1h.push("Price changed "@ + c@ + "% in the last 4 hours"@),
        None => with_1h,
    }
}

/// The texts of `s` with `sep` between each two.
pub open spec fn join(s: Seq<Seq<char>>, sep: Seq<char>) -> Seq<char>
    decreases s.len(),
{
    if s.len() == 0 {
        seq![]
    } else if s.len() == 1 {
        s[0]
    } else {
        join(s.drop_last(), sep) + sep + s.last()
    }
}

/// The descriptive embedding text of a snapshot.
pub open spec fn rich_text_of(p: RichTextParts) -> Seq<char> {
    "Market state for "@ + p.symbol@ + ": "@ + join(sentences_of(p), ". "@)
}

fn concat3(a: &str, b: &str, c: &str) -> (r: String)
    ensures
        r@ == a@ + b@ + c@,
{
    let mut s = String::from_str(a);
    s.append(b);
    s.append(c);
    s
}

fn push_text(out: &mut Vec<String>, s: String)
    ensures
        final(out)@ == old(out)@.push(s),
{
    out.push(s);
}

/// Appends `parts` to `s`, with `sep` between each two.
fn append_joined(s: &mut String, parts: &Vec<String>, sep: &str)
    ensures
        final(s)@ == old(s)@ + join(parts@.map_values(|t: String| t@), sep@),
{
    let ghost views = parts@.map_values(|t: String| t@);
    let ghost start = s@;
    let mut i: usize = 0;
    while i < parts.len()
        invariant
            views == parts@.map_values(|t: String| t@),
            i <= parts@.len(),
            s@ == start + join(views.subrange(0, i as int), sep@),
        decreases parts@.len() - i,
    {
        let ghost before = s@;
        if i > 0 {
            s.append(sep);
        }
        s.append(parts[i].as_str());
        proof {
            let pre = views.subrange(0, i as int);
            let next = views.subrange(0, i + 1);
            assert(next.drop_last() =~= pre);
            assert(next.last() == parts@[i as int]@);
            if i == 0 {
                assert(join(pre, sep@) =~= seq![]);
                assert(s@ =~= start + join(next, sep@));
            } else {
                assert(s@ =~= start + join(next, sep@));
            }
        }
        i = i + 1;
    }
    assert(views.subrange(0, parts@.len() as int) =~= views);
}

/// The descriptive text embedded for a snapshot: `Market state for {symbol}: `
/// followed by its sentences, joined by `. `.
pub fn rich_text(p: &RichTextParts) -> (r: String)
    ensures
        r@ == rich_text_of(*p),
{
    let mut sentences: Vec<String> = Vec::new();
    let mut first = concat3("RSI(7) is ", p.rsi_7.as_str(), ", which is ");
    first.append(p.rsi_7_zone.text());
    push_text(&mut sentences, first);
    push_text(&mut sentences, concat3("RSI(14) is ", p.rsi_14.as_str(), ""));
    push_text(&mut sentences, concat3("MACD is ", p.macd.as_str(), ""));
    let mut momentum = concat3("MACD momentum is ", momentum_str(p.macd_momentum), " (slope ");
    momentum.append(p.macd_slope.as_str());
    momentum.append(")");
    push_text(&mut sentences, momentum);
    let mut trend = concat3("EMA(20)/EMA(50) ratio is ", p.ema_ratio.as_str(), ", indicating ");
    trend.append(trend_str(p.trend));
    push_text(&mut sentences, trend);
    let mut oi = concat3("Open interest is ", oi_str(p.oi_sentiment), " (");
    oi.append(p.oi_delta.as_str());
    oi.append("% vs 24h average)");
    push_text(&mut sentences, oi);
    push_text(&mut sentences, concat3("Funding rate is ", funding_str(p.funding), ""));
    proof {
        reveal_strlit("");
    }
    match p.rsi_acceleration {
        Some(a) => push_text(&mut sentences, concat3("RSI momentum is ", acceleration_str(a), "")),
        None => {},
    }
    match p.volatility {
        Some(v) => push_text(&mut sentences, concat3("Volatility is ", volatility_str(v), "")),
        None => {},
    }
    match &p.price_change_1h {
        Some(c) => push_text(&mut sentences, concat3("Price changed ", c.as_str(), "% in the last hour")),
        None => {},
    }
    match &p.price_change_4h {
        Some(c) => push_text(
            &mut sentences,
            concat3("Price changed ", c.as_str(), "% in the last 4 hours"),
        ),
        None => {},
    }
    assert(sentences@.map_values(|t: String| t@) =~= sentences_of(*p));
    let mut out = concat3("Market state for ", p.symbol.as_str(), ": ");
    append_joined(&mut out, &sentences, ". ");
    out
}

/// The descriptive text depends on nothing but what it says: parts with the
/// same symbol, numbers and buckets give the same text.
pub proof fn rich_text_is_deterministic(a: RichTextParts, b: RichTextParts)
    requires
        a.symbol@ == b.symbol@,
        a.rsi_7@ == b.rsi_7@,
        a.rsi_7_zone == b.rsi_7_zone,
        a.rsi_14@ == b.rsi_14@,
        a.macd@ == b.macd@,
        a.macd_momentum == b.macd_momentum,
        a.macd_slope@ == b.macd_slope@,
        a.ema_ratio@ == b.ema_ratio@,
        a.trend == b.trend,
        a.oi_sentiment == b.oi_sentiment,
        a.oi_delta@ == b.oi_delta@,
        a.funding == b.funding,
        a.rsi_acceleration == b.rsi_acceleration,
        a.volatility == b.volatility,
        a.price_change_1h is Some <==> b.price_change_1h is Some,
        a.price_change_1h is Some ==> a.price_change_1h->0@ == b.price_change_1h->0@,
        a.price_change_4h is Some <==> b.price_change_4h is Some,
        a.price_change_4h is Some ==> a.price_change_4h->0@ == b.price_change_4h->0@,
    ensures
        rich_text_of(a) == rich_text_of(b),
{
    assert(sentences_of(a) =~= sentences_of(b));
}

/// The numbers of the numeric embedding form, each already rendered at its
/// fixed precision.
pub struct SimpleTextParts {
    pub symbol: String,
    /// Price to one decimal.
    pub price: String,
    /// RSI(7) to one decimal.
    pub rsi_7: String,
    /// RSI(14) to one decimal.
    pub rsi_14: String,
    /// MACD to two decimals.
    pub macd: String,
    /// EMA(20)/EMA(50) ratio to four decimals.
    pub ema_ratio: String,
    /// Signed open-interest change, in percent, to one decimal.
    pub oi_delta: String,
    /// Funding rate to six decimals.
    pub funding: String,
    /// ATR(14) on 4 hours to two decimals.
    pub atr_14: String,
    /// Signed one-hour price change, in percent, to two decimals.
    pub price_change_1h: String,
    /// Signed four-hour price change, in percent, to two decimals.
    pub price_change_4h: String,
}

/// The named values of the numeric form, in their fixed order.
pub open spec fn simple_fields_of(p: SimpleTextParts) -> Seq<Seq<char>> {
    seq![
        "Symbol: "@ + p.symbol@,
        "Price: "@ + p.price@,
        "RSI(7): "@ + p.rsi_7@,
        "RSI(14): "@ + p.rsi_14@,
        "MACD: "@ + p.macd@,
        "EMA Ratio 20/50: "@ + p.ema_ratio@,
        "OI Delta: "@ + p.oi_delta@ + "%"@,
        "Funding: "@ + p.funding@,
        "ATR(14): "@ + p.atr_14@,
        "Price Change 1h: "@ + p.price_change_1h@ + "%"@,
        "Price Change 4h: "@ + p.price_change_4h@ + "%"@,
    ]
}

/// The numeric form: one line of named values separated by `, `.
pub open spec fn simple_text_of(p: SimpleTextParts) -> Seq<char> {
    join(simple_fields_of(p), ", "@)
}

/// The numeric form of a snapshot, for diagnostics.
pub fn simple_text(p: &SimpleTextParts) -> (r: String)
    ensures
        r@ == simple_text_of(*p),
{
    proof {
        reveal_strlit("");
    }
    let mut fields: Vec<String> = Vec::new();
    push_text(&mut fields, concat3("Symbol: ", p.symbol.as_str(), ""));
    push_text(&mut fields, concat3("Price: ", p.price.as_str(), ""));
    push_text(&mut fields, concat3("RSI(7): ", p.rsi_7.as_str(), ""));
    push_text(&mut fields, concat3("RSI(14): ", p.rsi_14.as_str(), ""));
    push_text(&mut fields, concat3("MACD: ", p.macd.as_str(), ""));
    push_text(&mut fields, concat3("EMA Ratio 20/50: ", p.ema_ratio.as_str(), ""));
    push_text(&mut fields, concat3("OI Delta: ", p.oi_delta.as_str(), "%"));
    push_text(&mut fields, concat3("Funding: ", p.funding.as_str(), ""));
    push_text(&mut fields, concat3("ATR(14): ", p.atr_14.as_str(), ""));
    push_text(&mut fields, concat3("Price Change 1h: ", p.price_change_1h.as_str(), "%"));
    push_text(&mut fields, concat3("Price Change 4h: ", p.price_change_4h.as_str(), "%"));
    assert(fields@.map_values(|t: String| t@) =~= simple_fields_of(*p));
    let mut out = String::new();
    append_joined(&mut out, &fields, ", ");
    assert(out@ =~= simple_text_of(*p));
    out
}

} // verus!
