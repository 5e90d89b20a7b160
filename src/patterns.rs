//! Candlestick patterns recognised by the numeric backend: their names and
//! warm-up lengths under the backend's default candle settings.

use vstd::prelude::*;
use crate::text::same_text;

verus! {

/// A candlestick pattern.
#[derive(Clone, Copy, Debug, PartialEq, Eq, Structural)]
pub enum CandlePattern {
    TwoCrows,
    ThreeBlackCrows,
    ThreeInside,
    ThreeLineStrike,
    ThreeOutside,
    ThreeStarsInSouth,
    ThreeWhiteSoldiers,
    AbandonedBaby,
    AdvanceBlock,
    BeltHold,
    Breakaway,
    ClosingMarubozu,
    ConcealBabySwallow,
    Counterattack,
    DarkCloudCover,
    Doji,
    DojiStar,
    DragonflyDoji,
    Engulfing,
    EveningDojiStar,
    EveningStar,
    GapSideSideWhite,
    GravestoneDoji,
    Hammer,
    HangingMan,
    Harami,
    HaramiCross,
    HighWave,
    Hikkake,
    HikkakeMod,
    HomingPigeon,
    IdenticalThreeCrows,
    InNeck,
    InvertedHammer,
    Kicking,
    KickingByLength,
    LadderBottom,
    LongLeggedDoji,
    LongLine,
    Marubozu,
    MatchingLow,
    MatHold,
    MorningDojiStar,
    MorningStar,
    OnNeck,
    Piercing,
    RickshawMan,
    RiseFallThreeMethods,
    SeparatingLines,
    ShootingStar,
    ShortLine,
    SpinningTop,
    StalledPattern,
    StickSandwich,
    Takuri,
    TasukiGap,
    Thrusting,
    Tristar,
    UniqueThreeRiver,
    UpsideGapTwoCrows,
    XSideGapThreeMethods,
}

/// The canonical name of a pattern kernel.
pub open spec fn pattern_name(p: CandlePattern) -> Seq<char> {
    match p {
        CandlePattern::TwoCrows => "CDL2CROWS"@,
        CandlePattern::ThreeBlackCrows => "CDL3BLACKCROWS"@,
        CandlePattern::ThreeInside => "CDL3INSIDE"@,
        CandlePattern::ThreeLineStrike => "CDL3LINESTRIKE"@,
        CandlePattern::ThreeOutside => "CDL3OUTSIDE"@,
        CandlePattern::ThreeStarsInSouth => "CDL3STARSINSOUTH"@,
        CandlePattern::ThreeWhiteSoldiers => "CDL3WHITESOLDIERS"@,
        CandlePattern::AbandonedBaby => "CDLABANDONEDBABY"@,
        CandlePattern::AdvanceBlock => "CDLADVANCEBLOCK"@,
        CandlePattern::BeltHold => "CDLBELTHOLD"@,
        CandlePattern::Breakaway => "CDLBREAKAWAY"@,
        CandlePattern::ClosingMarubozu => "CDLCLOSINGMARUBOZU"@,
        CandlePattern::ConcealBabySwallow => "CDLCONCEALBABYSWALL"@,
        CandlePattern::Counterattack => "CDLCOUNTERATTACK"@,
        CandlePattern::DarkCloudCover => "CDLDARKCLOUDCOVER"@,
        CandlePattern::Doji => "CDLDOJI"@,
        CandlePattern::DojiStar => "CDLDOJISTAR"@,
        CandlePattern::DragonflyDoji => "CDLDRAGONFLYDOJI"@,
        CandlePattern::Engulfing => "CDLENGULFING"@,
        CandlePattern::EveningDojiStar => "CDLEVENINGDOJISTAR"@,
        CandlePattern::EveningStar => "CDLEVENINGSTAR"@,
        CandlePattern::GapSideSideWhite => "CDLGAPSIDESIDEWHITE"@,
        CandlePattern::GravestoneDoji => "CDLGRAVESTONEDOJI"@,
        CandlePattern::Hammer => "CDLHAMMER"@,
        CandlePattern::HangingMan => "CDLHANGINGMAN"@,
        CandlePattern::Harami => "CDLHARAMI"@,
        CandlePattern::HaramiCross => "CDLHARAMICROSS"@,
        CandlePattern::HighWave => "CDLHIGHWAVE"@,
        CandlePattern::Hikkake => "CDLHIKKAKE"@,
        CandlePattern::HikkakeMod => "CDLHIKKAKEMOD"@,
        CandlePattern::HomingPigeon => "CDLHOMINGPIGEON"@,
        CandlePattern::IdenticalThreeCrows => "CDLIDENTICAL3CROWS"@,
        CandlePattern::InNeck => "CDLINNECK"@,
        CandlePattern::InvertedHammer => "CDLINVERTEDHAMMER"@,
        CandlePattern::Kicking => "CDLKICKING"@,
        CandlePattern::KickingByLength => "CDLKICKINGBYLENGTH"@,
        CandlePattern::LadderBottom => "CDLLADDERBOTTOM"@,
        CandlePattern::LongLeggedDoji => "CDLLONGLEGGEDDOJI"@,
        CandlePattern::LongLine => "CDLLONGLINE"@,
        CandlePattern::Marubozu => "CDLMARUBOZU"@,
        CandlePattern::MatchingLow => "CDLMATCHINGLOW"@,
        CandlePattern::MatHold => "CDLMATHOLD"@,
        CandlePattern::MorningDojiStar => "CDLMORNINGDOJISTAR"@,
        CandlePattern::MorningStar => "CDLMORNINGSTAR"@,
        CandlePattern::OnNeck => "CDLONNECK"@,
        CandlePattern::Piercing => "CDLPIERCING"@,
        CandlePattern::RickshawMan => "CDLRICKSHAWMAN"@,
        CandlePattern::RiseFallThreeMethods => "CDLRISEFALL3METHODS"@,
        CandlePattern::SeparatingLines => "CDLSEPARATINGLINES"@,
        CandlePattern::ShootingStar => "CDLSHOOTINGSTAR"@,
        CandlePattern::ShortLine => "CDLSHORTLINE"@,
        CandlePattern::SpinningTop => "CDLSPINNINGTOP"@,
        CandlePattern::StalledPattern => "CDLSTALLEDPATTERN"@,
        CandlePattern::StickSandwich => "CDLSTICKSANDWICH"@,
        CandlePattern::Takuri => "CDLTAKURI"@,
        CandlePattern::TasukiGap => "CDLTASUKIGAP"@,
        CandlePattern::Thrusting => "CDLTHRUSTING"@,
        CandlePattern::Tristar => "CDLTRISTAR"@,
        CandlePattern::UniqueThreeRiver => "CDLUNIQUE3RIVER"@,
        CandlePattern::UpsideGapTwoCrows => "CDLUPSIDEGAP2CROWS"@,
        CandlePattern::XSideGapThreeMethods => "CDLXSIDEGAP3METHODS"@,
    }
}

/// The pattern whose canonical name is exactly `name`, if any.
pub open spec fn pattern_for(name: Seq<char>) -> Option<CandlePattern> {
    if name == "CDL2CROWS"@ {
        Some(CandlePattern::TwoCrows)
    } else if name == "CDL3BLACKCROWS"@ {
        Some(CandlePattern::ThreeBlackCrows)
    } else if name == "CDL3INSIDE"@ {
        Some(CandlePattern::ThreeInside)
    } else if name == "CDL3LINESTRIKE"@ {
        Some(CandlePattern::ThreeLineStrike)
    } else if name == "CDL3OUTSIDE"@ {
        Some(CandlePattern::ThreeOutside)
    } else if name == "CDL3STARSINSOUTH"@ {
        Some(CandlePattern::ThreeStarsInSouth)
    } else if name == "CDL3WHITESOLDIERS"@ {
        Some(CandlePattern::ThreeWhiteSoldiers)
    } else if name == "CDLABANDONEDBABY"@ {
        Some(CandlePattern::AbandonedBaby)
    } else if name == "CDLADVANCEBLOCK"@ {
        Some(CandlePattern::AdvanceBlock)
    } else if name == "CDLBELTHOLD"@ {
        Some(CandlePattern::BeltHold)
    } else if name == "CDLBREAKAWAY"@ {
        Some(CandlePattern::Breakaway)
    } else if name == "CDLCLOSINGMARUBOZU"@ {
        Some(CandlePattern::ClosingMarubozu)
    } else if name == "CDLCONCEALBABYSWALL"@ {
        Some(CandlePattern::ConcealBabySwallow)
    } else if name == "CDLCOUNTERATTACK"@ {
        Some(CandlePattern::Counterattack)
    } else if name == "CDLDARKCLOUDCOVER"@ {
        Some(CandlePattern::DarkCloudCover)
    } else if name == "CDLDOJI"@ {
        Some(CandlePattern::Doji)
    } else if name == "CDLDOJISTAR"@ {
        Some(CandlePattern::DojiStar)
    } else if name == "CDLDRAGONFLYDOJI"@ {
        Some(CandlePattern::DragonflyDoji)
    } else if name == "CDLENGULFING"@ {
        Some(CandlePattern::Engulfing)
    } else if name == "CDLEVENINGDOJISTAR"@ {
        Some(CandlePattern::EveningDojiStar)
    } else if name == "CDLEVENINGSTAR"@ {
        Some(CandlePattern::EveningStar)
    } else if name == "CDLGAPSIDESIDEWHITE"@ {
        Some(CandlePattern::GapSideSideWhite)
    } else if name == "CDLGRAVESTONEDOJI"@ {
        Some(CandlePattern::GravestoneDoji)
    } else if name == "CDLHAMMER"@ {
        Some(CandlePattern::Hammer)
    } else if name == "CDLHANGINGMAN"@ {
        Some(CandlePattern::HangingMan)
    } else if name == "CDLHARAMI"@ {
        Some(CandlePattern::Harami)
    } else if name == "CDLHARAMICROSS"@ {
        Some(CandlePattern::HaramiCross)
    } else if name == "CDLHIGHWAVE"@ {
        Some(CandlePattern::HighWave)
    } else if name == "CDLHIKKAKE"@ {
        Some(CandlePattern::Hikkake)
    } else if name == "CDLHIKKAKEMOD"@ {
        Some(CandlePattern::HikkakeMod)
    } else if name == "CDLHOMINGPIGEON"@ {
        Some(CandlePattern::HomingPigeon)
    } else if name == "CDLIDENTICAL3CROWS"@ {
        Some(CandlePattern::IdenticalThreeCrows)
    } else if name == "CDLINNECK"@ {
        Some(CandlePattern::InNeck)
    } else if name == "CDLINVERTEDHAMMER"@ {
        Some(CandlePattern::InvertedHammer)
    } else if name == "CDLKICKING"@ {
        Some(CandlePattern::Kicking)
    } else if name == "CDLKICKINGBYLENGTH"@ {
        Some(CandlePattern::KickingByLength)
    } else if name == "CDLLADDERBOTTOM"@ {
        Some(CandlePattern::LadderBottom)
    } else if name == "CDLLONGLEGGEDDOJI"@ {
        Some(CandlePattern::LongLeggedDoji)
    } else if name == "CDLLONGLINE"@ {
        Some(CandlePattern::LongLine)
    } else if name == "CDLMARUBOZU"@ {
        Some(CandlePattern::Marubozu)
    } else if name == "CDLMATCHINGLOW"@ {
        Some(CandlePattern::MatchingLow)
    } else if name == "CDLMATHOLD"@ {
        Some(CandlePattern::MatHold)
    } else if name == "CDLMORNINGDOJISTAR"@ {
        Some(CandlePattern::MorningDojiStar)
    } else if name == "CDLMORNINGSTAR"@ {
        Some(CandlePattern::MorningStar)
    } else if name == "CDLONNECK"@ {
        Some(CandlePattern::OnNeck)
    } else if name == "CDLPIERCING"@ {
        Some(CandlePattern::Piercing)
    } else if name == "CDLRICKSHAWMAN"@ {
        Some(CandlePattern::RickshawMan)
    } else if name == "CDLRISEFALL3METHODS"@ {
        Some(CandlePattern::RiseFallThreeMethods)
    } else if name == "CDLSEPARATINGLINES"@ {
        Some(CandlePattern::SeparatingLines)
    } else if name == "CDLSHOOTINGSTAR"@ {
        Some(CandlePattern::ShootingStar)
    } else if name == "CDLSHORTLINE"@ {
        Some(CandlePattern::ShortLine)
    } else if name == "CDLSPINNINGTOP"@ {
        Some(CandlePattern::SpinningTop)
    } else if name == "CDLSTALLEDPATTERN"@ {
        Some(CandlePattern::StalledPattern)
    } else if name == "CDLSTICKSANDWICH"@ {
        Some(CandlePattern::StickSandwich)
    } else if name == "CDLTAKURI"@ {
        Some(CandlePattern::Takuri)
    } else if name == "CDLTASUKIGAP"@ {
        Some(CandlePattern::TasukiGap)
    } else if name == "CDLTHRUSTING"@ {
        Some(CandlePattern::Thrusting)
    } else if name == "CDLTRISTAR"@ {
        Some(CandlePattern::Tristar)
    } else if name == "CDLUNIQUE3RIVER"@ {
        Some(CandlePattern::UniqueThreeRiver)
    } else if name == "CDLUPSIDEGAP2CROWS"@ {
        Some(CandlePattern::UpsideGapTwoCrows)
    } else if name == "CDLXSIDEGAP3METHODS"@ {
        Some(CandlePattern::XSideGapThreeMethods)
    } else {
        None
    }
}

/// Leading candles a pattern kernel leaves without output: the longest
/// averaging period among the candle settings it reads, plus the candles
/// of the pattern before the last.
pub open spec fn pattern_warm_up(p: CandlePattern) -> int {
    match p {
        CandlePattern::TwoCrows => 12,
        CandlePattern::ThreeBlackCrows => 13,
        CandlePattern::ThreeInside => 12,
        CandlePattern::ThreeLineStrike => 8,
        CandlePattern::ThreeOutside => 3,
        CandlePattern::ThreeStarsInSouth => 12,
        CandlePattern::ThreeWhiteSoldiers => 12,
        CandlePattern::AbandonedBaby => 12,
        CandlePattern::AdvanceBlock => 12,
        CandlePattern::BeltHold => 10,
        CandlePattern::Breakaway => 14,
        CandlePattern::ClosingMarubozu => 10,
        CandlePattern::ConcealBabySwallow => 13,
        CandlePattern::Counterattack => 11,
        CandlePattern::DarkCloudCover => 11,
        CandlePattern::Doji => 10,
        CandlePattern::DojiStar => 11,
        CandlePattern::DragonflyDoji => 10,
        CandlePattern::Engulfing => 2,
        CandlePattern::EveningDojiStar => 12,
        CandlePattern::EveningStar => 12,
        CandlePattern::GapSideSideWhite => 7,
        CandlePattern::GravestoneDoji => 10,
        CandlePattern::Hammer => 11,
        CandlePattern::HangingMan => 11,
        CandlePattern::Harami => 11,
        CandlePattern::HaramiCross => 11,
        CandlePattern::HighWave => 10,
        CandlePattern::Hikkake => 5,
        CandlePattern::HikkakeMod => 10,
        CandlePattern::HomingPigeon => 11,
        CandlePattern::IdenticalThreeCrows => 12,
        CandlePattern::InNeck => 11,
        CandlePattern::InvertedHammer => 11,
        CandlePattern::Kicking => 11,
        CandlePattern::KickingByLength => 11,
        CandlePattern::LadderBottom => 14,
        CandlePattern::LongLeggedDoji => 10,
        CandlePattern::LongLine => 10,
        CandlePattern::Marubozu => 10,
        CandlePattern::MatchingLow => 6,
        CandlePattern::MatHold => 14,
        CandlePattern::MorningDojiStar => 12,
        CandlePattern::MorningStar => 12,
        CandlePattern::OnNeck => 11,
        CandlePattern::Piercing => 11,
        CandlePattern::RickshawMan => 10,
        CandlePattern::RiseFallThreeMethods => 14,
        CandlePattern::SeparatingLines => 11,
        CandlePattern::ShootingStar => 11,
        CandlePattern::ShortLine => 10,
        CandlePattern::SpinningTop => 10,
        CandlePattern::StalledPattern => 12,
        CandlePattern::StickSandwich => 7,
        CandlePattern::Takuri => 10,
        CandlePattern::TasukiGap => 7,
        CandlePattern::Thrusting => 11,
        CandlePattern::Tristar => 12,
        CandlePattern::UniqueThreeRiver => 12,
        CandlePattern::UpsideGapTwoCrows => 12,
        CandlePattern::XSideGapThreeMethods => 2,
    }
}

impl CandlePattern {
    /// Looks a pattern up by its exact canonical name.
    pub fn from_canonical(name: &str) -> (r: Option<CandlePattern>)
        ensures
            r == pattern_for(name@),
    {
        if same_text(name, "CDL2CROWS") {
            Some(CandlePattern::TwoCrows)
        } else if same_text(name, "CDL3BLACKCROWS") {
            Some(CandlePattern::ThreeBlackCrows)
        } else if same_text(name, "CDL3INSIDE") {
            Some(CandlePattern::ThreeInside)
        } else if same_text(name, "CDL3LINESTRIKE") {
            Some(CandlePattern::ThreeLineStrike)
        } else if same_text(name, "CDL3OUTSIDE") {
            Some(CandlePattern::ThreeOutside)
        } else if same_text(name, "CDL3STARSINSOUTH") {
            Some(CandlePattern::ThreeStarsInSouth)
        } else if same_text(name, "CDL3WHITESOLDIERS") {
            Some(CandlePattern::ThreeWhiteSoldiers)
        } else if same_text(name, "CDLABANDONEDBABY") {
            Some(CandlePattern::AbandonedBaby)
        } else if same_text(name, "CDLADVANCEBLOCK") {
            Some(CandlePattern::AdvanceBlock)
        } else if same_text(name, "CDLBELTHOLD") {
            Some(CandlePattern::BeltHold)
        } else if same_text(name, "CDLBREAKAWAY") {
            Some(CandlePattern::Breakaway)
        } else if same_text(name, "CDLCLOSINGMARUBOZU") {
            Some(CandlePattern::ClosingMarubozu)
        } else if same_text(name, "CDLCONCEALBABYSWALL") {
            Some(CandlePattern::ConcealBabySwallow)
        } else if same_text(name, "CDLCOUNTERATTACK") {
            Some(CandlePattern::Counterattack)
        } else if same_text(name, "CDLDARKCLOUDCOVER") {
            Some(CandlePattern::DarkCloudCover)
        } else if same_text(name, "CDLDOJI") {
            Some(CandlePattern::Doji)
        } else if same_text(name, "CDLDOJISTAR") {
            Some(CandlePattern::DojiStar)
        } else if same_text(name, "CDLDRAGONFLYDOJI") {
            Some(CandlePattern::DragonflyDoji)
        } else if same_text(name, "CDLENGULFING") {
            Some(CandlePattern::Engulfing)
        } else if same_text(name, "CDLEVENINGDOJISTAR") {
            Some(CandlePattern::EveningDojiStar)
        } else if same_text(name, "CDLEVENINGSTAR") {
            Some(CandlePattern::EveningStar)
        } else if same_text(name, "CDLGAPSIDESIDEWHITE") {
            Some(CandlePattern::GapSideSideWhite)
        } else if same_text(name, "CDLGRAVESTONEDOJI") {
            Some(CandlePattern::GravestoneDoji)
        } else if same_text(name, "CDLHAMMER") {
            Some(CandlePattern::Hammer)
        } else if same_text(name, "CDLHANGINGMAN") {
            Some(CandlePattern::HangingMan)
        } else if same_text(name, "CDLHARAMI") {
            Some(CandlePattern::Harami)
        } else if same_text(name, "CDLHARAMICROSS") {
            Some(CandlePattern::HaramiCross)
        } else if same_text(name, "CDLHIGHWAVE") {
            Some(CandlePattern::HighWave)
        } else if same_text(name, "CDLHIKKAKE") {
            Some(CandlePattern::Hikkake)
        } else if same_text(name, "CDLHIKKAKEMOD") {
            Some(CandlePattern::HikkakeMod)
        } else if same_text(name, "CDLHOMINGPIGEON") {
            Some(CandlePattern::HomingPigeon)
        } else if same_text(name, "CDLIDENTICAL3CROWS") {
            Some(CandlePattern::IdenticalThreeCrows)
        } else if same_text(name, "CDLINNECK") {
            Some(CandlePattern::InNeck)
        } else if same_text(name, "CDLINVERTEDHAMMER") {
            Some(CandlePattern::InvertedHammer)
        } else if same_text(name, "CDLKICKING") {
            Some(CandlePattern::Kicking)
        } else if same_text(name, "CDLKICKINGBYLENGTH") {
            Some(CandlePattern::KickingByLength)
        } else if same_text(name, "CDLLADDERBOTTOM") {
            Some(CandlePattern::LadderBottom)
        } else if same_text(name, "CDLLONGLEGGEDDOJI") {
            Some(CandlePattern::LongLeggedDoji)
        } else if same_text(name, "CDLLONGLINE") {
            Some(CandlePattern::LongLine)
        } else if same_text(name, "CDLMARUBOZU") {
            Some(CandlePattern::Marubozu)
        } else if same_text(name, "CDLMATCHINGLOW") {
            Some(CandlePattern::MatchingLow)
        } else if same_text(name, "CDLMATHOLD") {
            Some(CandlePattern::MatHold)
        } else if same_text(name, "CDLMORNINGDOJISTAR") {
            Some(CandlePattern::MorningDojiStar)
        } else if same_text(name, "CDLMORNINGSTAR") {
            Some(CandlePattern::MorningStar)
        } else if same_text(name, "CDLONNECK") {
            Some(CandlePattern::OnNeck)
        } else if same_text(name, "CDLPIERCING") {
            Some(CandlePattern::Piercing)
        } else if same_text(name, "CDLRICKSHAWMAN") {
            Some(CandlePattern::RickshawMan)
        } else if same_text(name, "CDLRISEFALL3METHODS") {
            Some(CandlePattern::RiseFallThreeMethods)
        } else if same_text(name, "CDLSEPARATINGLINES") {
            Some(CandlePattern::SeparatingLines)
        } else if same_text(name, "CDLSHOOTINGSTAR") {
            Some(CandlePattern::ShootingStar)
        } else if same_text(name, "CDLSHORTLINE") {
            Some(CandlePattern::ShortLine)
        } else if same_text(name, "CDLSPINNINGTOP") {
            Some(CandlePattern::SpinningTop)
        } else if same_text(name, "CDLSTALLEDPATTERN") {
            Some(CandlePattern::StalledPattern)
        } else if same_text(name, "CDLSTICKSANDWICH") {
            Some(CandlePattern::StickSandwich)
        } else if same_text(name, "CDLTAKURI") {
            Some(CandlePattern::Takuri)
        } else if same_text(name, "CDLTASUKIGAP") {
            Some(CandlePattern::TasukiGap)
        } else if same_text(name, "CDLTHRUSTING") {
            Some(CandlePattern::Thrusting)
        } else if same_text(name, "CDLTRISTAR") {
            Some(CandlePattern::Tristar)
        } else if same_text(name, "CDLUNIQUE3RIVER") {
            Some(CandlePattern::UniqueThreeRiver)
        } else if same_text(name, "CDLUPSIDEGAP2CROWS") {
            Some(CandlePattern::UpsideGapTwoCrows)
        } else if same_text(name, "CDLXSIDEGAP3METHODS") {
            Some(CandlePattern::XSideGapThreeMethods)
        } else {
            None
        }
    }

    /// The canonical name of this pattern.
    pub fn name(&self) -> (r: &'static str)
        ensures
            r@ == pattern_name(*self),
    {
        match self {
            CandlePattern::TwoCrows => "CDL2CROWS",
            CandlePattern::ThreeBlackCrows => "CDL3BLACKCROWS",
            CandlePattern::ThreeInside => "CDL3INSIDE",
            CandlePattern::ThreeLineStrike => "CDL3LINESTRIKE",
            CandlePattern::ThreeOutside => "CDL3OUTSIDE",
            CandlePattern::ThreeStarsInSouth => "CDL3STARSINSOUTH",
            CandlePattern::ThreeWhiteSoldiers => "CDL3WHITESOLDIERS",
            CandlePattern::AbandonedBaby => "CDLABANDONEDBABY",
            CandlePattern::AdvanceBlock => "CDLADVANCEBLOCK",
            CandlePattern::BeltHold => "CDLBELTHOLD",
            CandlePattern::Breakaway => "CDLBREAKAWAY",
            CandlePattern::ClosingMarubozu => "CDLCLOSINGMARUBOZU",
            CandlePattern::ConcealBabySwallow => "CDLCONCEALBABYSWALL",
            CandlePattern::Counterattack => "CDLCOUNTERATTACK",
            CandlePattern::DarkCloudCover => "CDLDARKCLOUDCOVER",
            CandlePattern::Doji => "CDLDOJI",
            CandlePattern::DojiStar => "CDLDOJISTAR",
            CandlePattern::DragonflyDoji => "CDLDRAGONFLYDOJI",
            CandlePattern::Engulfing => "CDLENGULFING",
            CandlePattern::EveningDojiStar => "CDLEVENINGDOJISTAR",
            CandlePattern::EveningStar => "CDLEVENINGSTAR",
            CandlePattern::GapSideSideWhite => "CDLGAPSIDESIDEWHITE",
            CandlePattern::GravestoneDoji => "CDLGRAVESTONEDOJI",
            CandlePattern::Hammer => "CDLHAMMER",
            CandlePattern::HangingMan => "CDLHANGINGMAN",
            CandlePattern::Harami => "CDLHARAMI",
            CandlePattern::HaramiCross => "CDLHARAMICROSS",
            CandlePattern::HighWave => "CDLHIGHWAVE",
            CandlePattern::Hikkake => "CDLHIKKAKE",
            CandlePattern::HikkakeMod => "CDLHIKKAKEMOD",
            CandlePattern::HomingPigeon => "CDLHOMINGPIGEON",
            CandlePattern::IdenticalThreeCrows => "CDLIDENTICAL3CROWS",
            CandlePattern::InNeck => "CDLINNECK",
            CandlePattern::InvertedHammer => "CDLINVERTEDHAMMER",
            CandlePattern::Kicking => "CDLKICKING",
            CandlePattern::KickingByLength => "CDLKICKINGBYLENGTH",
            CandlePattern::LadderBottom => "CDLLADDERBOTTOM",
            CandlePattern::LongLeggedDoji => "CDLLONGLEGGEDDOJI",
            CandlePattern::LongLine => "CDLLONGLINE",
            CandlePattern::Marubozu => "CDLMARUBOZU",
            CandlePattern::MatchingLow => "CDLMATCHINGLOW",
            CandlePattern::MatHold => "CDLMATHOLD",
            CandlePattern::MorningDojiStar => "CDLMORNINGDOJISTAR",
            CandlePattern::MorningStar => "CDLMORNINGSTAR",
            CandlePattern::OnNeck => "CDLONNECK",
            CandlePattern::Piercing => "CDLPIERCING",
            CandlePattern::RickshawMan => "CDLRICKSHAWMAN",
            CandlePattern::RiseFallThreeMethods => "CDLRISEFALL3METHODS",
            CandlePattern::SeparatingLines => "CDLSEPARATINGLINES",
            CandlePattern::ShootingStar => "CDLSHOOTINGSTAR",
            CandlePattern::ShortLine => "CDLSHORTLINE",
            CandlePattern::SpinningTop => "CDLSPINNINGTOP",
            CandlePattern::StalledPattern => "CDLSTALLEDPATTERN",
            CandlePattern::StickSandwich => "CDLSTICKSANDWICH",
            CandlePattern::Takuri => "CDLTAKURI",
            CandlePattern::TasukiGap => "CDLTASUKIGAP",
            CandlePattern::Thrusting => "CDLTHRUSTING",
            CandlePattern::Tristar => "CDLTRISTAR",
            CandlePattern::UniqueThreeRiver => "CDLUNIQUE3RIVER",
            CandlePattern::UpsideGapTwoCrows => "CDLUPSIDEGAP2CROWS",
            CandlePattern::XSideGapThreeMethods => "CDLXSIDEGAP3METHODS",
        }
    }

    /// Leading candles this pattern kernel leaves without output.
    pub fn warm_up(&self) -> (r: usize)
        ensures
            r as int == pattern_warm_up(*self),
    {
        match self {
            CandlePattern::TwoCrows => 12,
            CandlePattern::ThreeBlackCrows => 13,
            CandlePattern::ThreeInside => 12,
            CandlePattern::ThreeLineStrike => 8,
            CandlePattern::ThreeOutside => 3,
            CandlePattern::ThreeStarsInSouth => 12,
            CandlePattern::ThreeWhiteSoldiers => 12,
            CandlePattern::AbandonedBaby => 12,
            CandlePattern::AdvanceBlock => 12,
            CandlePattern::BeltHold => 10,
            CandlePattern::Breakaway => 14,
            CandlePattern::ClosingMarubozu => 10,
            CandlePattern::ConcealBabySwallow => 13,
            CandlePattern::Counterattack => 11,
            CandlePattern::DarkCloudCover => 11,
            CandlePattern::Doji => 10,
            CandlePattern::DojiStar => 11,
            CandlePattern::DragonflyDoji => 10,
            CandlePattern::Engulfing => 2,
            CandlePattern::EveningDojiStar => 12,
            CandlePattern::EveningStar => 12,
            CandlePattern::GapSideSideWhite => 7,
            CandlePattern::GravestoneDoji => 10,
            CandlePattern::Hammer => 11,
            CandlePattern::HangingMan => 11,
            CandlePattern::Harami => 11,
            CandlePattern::HaramiCross => 11,
            CandlePattern::HighWave => 10,
            CandlePattern::Hikkake => 5,
            CandlePattern::HikkakeMod => 10,
            CandlePattern::HomingPigeon => 11,
            CandlePattern::IdenticalThreeCrows => 12,
            CandlePattern::InNeck => 11,
            CandlePattern::InvertedHammer => 11,
            CandlePattern::Kicking => 11,
            CandlePattern::KickingByLength => 11,
            CandlePattern::LadderBottom => 14,
            CandlePattern::LongLeggedDoji => 10,
            CandlePattern::LongLine => 10,
            CandlePattern::Marubozu => 10,
            CandlePattern::MatchingLow => 6,
            CandlePattern::MatHold => 14,
            CandlePattern::MorningDojiStar => 12,
            CandlePattern::MorningStar => 12,
            CandlePattern::OnNeck => 11,
            CandlePattern::Piercing => 11,
            CandlePattern::RickshawMan => 10,
            CandlePattern::RiseFallThreeMethods => 14,
            CandlePattern::SeparatingLines => 11,
            CandlePattern::ShootingStar => 11,
            CandlePattern::ShortLine => 10,
            CandlePattern::SpinningTop => 10,
            CandlePattern::StalledPattern => 12,
            CandlePattern::StickSandwich => 7,
            CandlePattern::Takuri => 10,
            CandlePattern::TasukiGap => 7,
            CandlePattern::Thrusting => 11,
            CandlePattern::Tristar => 12,
            CandlePattern::UniqueThreeRiver => 12,
            CandlePattern::UpsideGapTwoCrows => 12,
            CandlePattern::XSideGapThreeMethods => 2,
        }
    }

    /// Whether the pattern kernel takes a `penetration` parameter.
    pub fn has_penetration(&self) -> (r: bool)
        ensures
            r == has_penetration(*self),
    {
        matches!(
            self,
            CandlePattern::AbandonedBaby | CandlePattern::DarkCloudCover | CandlePattern::EveningDojiStar | CandlePattern::EveningStar | CandlePattern::MatHold | CandlePattern::MorningDojiStar | CandlePattern::MorningStar
        )
    }
}

/// Pattern kernels that read a real-valued `penetration` parameter.
pub open spec fn has_penetration(p: CandlePattern) -> bool {
    p == CandlePattern::AbandonedBaby || p == CandlePattern::DarkCloudCover || p == CandlePattern::EveningDojiStar || p == CandlePattern::EveningStar || p == CandlePattern::MatHold || p == CandlePattern::MorningDojiStar || p == CandlePattern::MorningStar
}

/// Every pattern has a warm-up of at most fourteen candles.
pub proof fn lemma_pattern_warm_up_bounded(p: CandlePattern)
    ensures
        0 <= pattern_warm_up(p) <= 14,
{
}

} // verus!
