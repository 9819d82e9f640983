//! Family classification of the indicator catalogue.
//!
//! Each indicator belongs to exactly one family; names are the public type
//! names of the indicators.
use vstd::prelude::*;

verus! {

/// The (family, indicators) catalogue, in display order.
pub open spec fn catalogue() -> Seq<(Seq<char>, Seq<Seq<char>>)> {
    seq![
        (
            "Moving Averages"@,
            seq![
                "Sma"@,
                "Ema"@,
                "Wma"@,
                "Dema"@,
                "Tema"@,
                "Hma"@,
                "Kama"@,
                "Smma"@,
                "Trima"@,
                "Zlema"@,
                "T3"@,
                "Vwma"@,
                "Alma"@,
                "McGinleyDynamic"@,
                "Frama"@,
                "Vidya"@,
                "Jma"@,
                "Alligator"@,
                "Evwma"@,
            ],
        ),
        (
            "Momentum Oscillators"@,
            seq![
                "Rsi"@,
                "Stochastic"@,
                "Cci"@,
                "Roc"@,
                "WilliamsR"@,
                "Mfi"@,
                "AwesomeOscillator"@,
                "Mom"@,
                "Cmo"@,
                "Tsi"@,
                "Pmo"@,
                "StochRsi"@,
                "UltimateOscillator"@,
                "Rvi"@,
                "Pgo"@,
                "Kst"@,
                "Smi"@,
                "LaguerreRsi"@,
                "ConnorsRsi"@,
                "Inertia"@,
            ],
        ),
        (
            "Trend & Directional"@,
            seq![
                "MacdIndicator"@,
                "Adx"@,
                "Adxr"@,
                "Aroon"@,
                "Trix"@,
                "AroonOscillator"@,
                "Vortex"@,
                "Rwi"@,
                "Tii"@,
                "WaveTrend"@,
                "MassIndex"@,
                "ChoppinessIndex"@,
                "VerticalHorizontalFilter"@,
            ],
        ),
        (
            "Price Oscillators"@,
            seq![
                "Ppo"@,
                "Dpo"@,
                "Coppock"@,
                "AcceleratorOscillator"@,
                "BalanceOfPower"@,
                "Apo"@,
                "AwesomeOscillatorHistogram"@,
                "Cfo"@,
                "ZeroLagMacd"@,
                "ElderImpulse"@,
                "Stc"@,
            ],
        ),
        (
            "Volatility & Bands"@,
            seq![
                "Atr"@,
                "BollingerBands"@,
                "Keltner"@,
                "Donchian"@,
                "Natr"@,
                "StdDev"@,
                "UlcerIndex"@,
                "HistoricalVolatility"@,
                "BollingerBandwidth"@,
                "PercentB"@,
                "TrueRange"@,
                "ChaikinVolatility"@,
                "RviVolatility"@,
                "ParkinsonVolatility"@,
                "GarmanKlassVolatility"@,
                "RogersSatchellVolatility"@,
                "YangZhangVolatility"@,
            ],
        ),
        (
            "Bands & Channels"@,
            seq![
                "MaEnvelope"@,
                "AccelerationBands"@,
                "StarcBands"@,
                "AtrBands"@,
                "HurstChannel"@,
                "LinRegChannel"@,
                "StandardErrorBands"@,
                "DoubleBollinger"@,
                "TtmSqueeze"@,
                "FractalChaosBands"@,
                "VwapStdDevBands"@,
            ],
        ),
        (
            "Trailing Stops"@,
            seq![
                "Psar"@,
                "SuperTrend"@,
                "ChandelierExit"@,
                "ChandeKrollStop"@,
                "AtrTrailingStop"@,
                "HiLoActivator"@,
                "VoltyStop"@,
                "YoyoExit"@,
                "DonchianStop"@,
                "PercentageTrailingStop"@,
                "StepTrailingStop"@,
                "RenkoTrailingStop"@,
            ],
        ),
        (
            "Volume"@,
            seq![
                "Obv"@,
                "Vwap"@,
                "RollingVwap"@,
                "Adl"@,
                "VolumePriceTrend"@,
                "ChaikinMoneyFlow"@,
                "ChaikinOscillator"@,
                "ForceIndex"@,
                "EaseOfMovement"@,
                "Kvo"@,
                "VolumeOscillator"@,
                "Nvi"@,
                "Pvi"@,
                "AdOscillator"@,
                "AnchoredVwap"@,
                "DemandIndex"@,
                "Tsv"@,
                "Vzo"@,
                "MarketFacilitationIndex"@,
            ],
        ),
        (
            "Price Statistics"@,
            seq![
                "TypicalPrice"@,
                "MedianPrice"@,
                "WeightedClose"@,
                "LinearRegression"@,
                "LinRegSlope"@,
                "ZScore"@,
                "LinRegAngle"@,
                "Variance"@,
                "CoefficientOfVariation"@,
                "Skewness"@,
                "Kurtosis"@,
                "StandardError"@,
                "DetrendedStdDev"@,
                "RSquared"@,
                "MedianAbsoluteDeviation"@,
                "Autocorrelation"@,
                "HurstExponent"@,
                "PearsonCorrelation"@,
                "Beta"@,
                "SpearmanCorrelation"@,
            ],
        ),
        (
            "Ehlers / Cycle (DSP)"@,
            seq![
                "Mama"@,
                "Fama"@,
                "FisherTransform"@,
                "InverseFisherTransform"@,
                "SuperSmoother"@,
                "HilbertDominantCycle"@,
                "SineWave"@,
                "Decycler"@,
                "DecyclerOscillator"@,
                "RoofingFilter"@,
                "CenterOfGravity"@,
                "CyberneticCycle"@,
                "AdaptiveCycle"@,
                "EmpiricalModeDecomposition"@,
                "EhlersStochastic"@,
                "InstantaneousTrendline"@,
            ],
        ),
        (
            "Pivots & S/R"@,
            seq![
                "ClassicPivots"@,
                "FibonacciPivots"@,
                "Camarilla"@,
                "WoodiePivots"@,
                "DemarkPivots"@,
                "WilliamsFractals"@,
                "ZigZag"@,
            ],
        ),
        (
            "DeMark"@,
            seq![
                "TdSetup"@,
                "TdSequential"@,
                "TdDeMarker"@,
                "TdRei"@,
                "TdPressure"@,
                "TdCombo"@,
                "TdCountdown"@,
                "TdLines"@,
                "TdRangeProjection"@,
                "TdDifferential"@,
                "TdOpen"@,
                "TdRiskLevel"@,
            ],
        ),
        (
            "Ichimoku & Charts"@,
            seq![
                "Ichimoku"@,
                "HeikinAshi"@,
            ],
        ),
        (
            "Candlestick Patterns"@,
            seq![
                "Doji"@,
                "Hammer"@,
                "InvertedHammer"@,
                "HangingMan"@,
                "ShootingStar"@,
                "Engulfing"@,
                "Harami"@,
                "MorningEveningStar"@,
                "ThreeSoldiersOrCrows"@,
                "PiercingDarkCloud"@,
                "Marubozu"@,
                "Tweezer"@,
                "SpinningTop"@,
                "ThreeInside"@,
                "ThreeOutside"@,
            ],
        ),
        (
            "Market Profile"@,
            seq![
                "ValueArea"@,
                "InitialBalance"@,
                "OpeningRange"@,
            ],
        ),
        (
            "Risk / Performance"@,
            seq![
                "SharpeRatio"@,
                "SortinoRatio"@,
                "CalmarRatio"@,
                "OmegaRatio"@,
                "MaxDrawdown"@,
                "AverageDrawdown"@,
                "DrawdownDuration"@,
                "PainIndex"@,
                "ValueAtRisk"@,
                "ConditionalValueAtRisk"@,
                "ProfitFactor"@,
                "GainLossRatio"@,
                "RecoveryFactor"@,
                "KellyCriterion"@,
                "TreynorRatio"@,
                "InformationRatio"@,
                "Alpha"@,
            ],
        ),
    ]
}

/// Name of the `i`-th family.
pub open spec fn family_name(i: int) -> Seq<char> {
    catalogue()[i].0
}

/// Name of the `j`-th indicator of the `i`-th family.
pub open spec fn member_name(i: int, j: int) -> Seq<char> {
    catalogue()[i].1[j]
}

/// `(i, j)` is a position in the catalogue: family `i`, indicator `j`.
pub open spec fn is_position(i: int, j: int) -> bool {
    0 <= i < catalogue().len() && 0 <= j < catalogue()[i].1.len()
}

/// The (family, indicators) catalogue, in display order.
pub fn families() -> (r: Vec<(&'static str, Vec<&'static str>)>)
    ensures
        r.deep_view() == catalogue(),
{
    let r = vec![
        (
            "Moving Averages",
            vec![
                "Sma",
                "Ema",
                "Wma",
                "Dema",
                "Tema",
                "Hma",
                "Kama",
                "Smma",
                "Trima",
                "Zlema",
                "T3",
                "Vwma",
                "Alma",
                "McGinleyDynamic",
                "Frama",
                "Vidya",
                "Jma",
                "Alligator",
                "Evwma",
            ],
        ),
        (
            "Momentum Oscillators",
            vec![
                "Rsi",
                "Stochastic",
                "Cci",
                "Roc",
                "WilliamsR",
                "Mfi",
                "AwesomeOscillator",
                "Mom",
                "Cmo",
                "Tsi",
                "Pmo",
                "StochRsi",
                "UltimateOscillator",
                "Rvi",
                "Pgo",
                "Kst",
                "Smi",
                "LaguerreRsi",
                "ConnorsRsi",
                "Inertia",
            ],
        ),
        (
            "Trend & Directional",
            vec![
                "MacdIndicator",
                "Adx",
                "Adxr",
                "Aroon",
                "Trix",
                "AroonOscillator",
                "Vortex",
                "Rwi",
                "Tii",
                "WaveTrend",
                "MassIndex",
                "ChoppinessIndex",
                "VerticalHorizontalFilter",
            ],
        ),
        (
            "Price Oscillators",
            vec![
                "Ppo",
                "Dpo",
                "Coppock",
                "AcceleratorOscillator",
                "BalanceOfPower",
                "Apo",
                "AwesomeOscillatorHistogram",
                "Cfo",
                "ZeroLagMacd",
                "ElderImpulse",
                "Stc",
            ],
        ),
        (
            "Volatility & Bands",
            vec![
                "Atr",
                "BollingerBands",
                "Keltner",
                "Donchian",
                "Natr",
                "StdDev",
                "UlcerIndex",
                "HistoricalVolatility",
                "BollingerBandwidth",
                "PercentB",
                "TrueRange",
                "ChaikinVolatility",
                "RviVolatility",
                "ParkinsonVolatility",
                "GarmanKlassVolatility",
                "RogersSatchellVolatility",
                "YangZhangVolatility",
            ],
        ),
        (
            "Bands & Channels",
            vec![
                "MaEnvelope",
                "AccelerationBands",
                "StarcBands",
                "AtrBands",
                "HurstChannel",
                "LinRegChannel",
                "StandardErrorBands",
                "DoubleBollinger",
                "TtmSqueeze",
                "FractalChaosBands",
                "VwapStdDevBands",
            ],
        ),
        (
            "Trailing Stops",
            vec![
                "Psar",
                "SuperTrend",
                "ChandelierExit",
                "ChandeKrollStop",
                "AtrTrailingStop",
                "HiLoActivator",
                "VoltyStop",
                "YoyoExit",
                "DonchianStop",
                "PercentageTrailingStop",
                "StepTrailingStop",
                "RenkoTrailingStop",
            ],
        ),
        (
            "Volume",
            vec![
                "Obv",
                "Vwap",
                "RollingVwap",
                "Adl",
                "VolumePriceTrend",
                "ChaikinMoneyFlow",
                "ChaikinOscillator",
                "ForceIndex",
                "EaseOfMovement",
                "Kvo",
                "VolumeOscillator",
                "Nvi",
                "Pvi",
                "AdOscillator",
                "AnchoredVwap",
                "DemandIndex",
                "Tsv",
                "Vzo",
                "MarketFacilitationIndex",
            ],
        ),
        (
            "Price Statistics",
            vec![
                "TypicalPrice",
                "MedianPrice",
                "WeightedClose",
                "LinearRegression",
                "LinRegSlope",
                "ZScore",
                "LinRegAngle",
                "Variance",
                "CoefficientOfVariation",
                "Skewness",
                "Kurtosis",
                "StandardError",
                "DetrendedStdDev",
                "RSquared",
                "MedianAbsoluteDeviation",
                "Autocorrelation",
                "HurstExponent",
                "PearsonCorrelation",
                "Beta",
                "SpearmanCorrelation",
            ],
        ),
        (
            "Ehlers / Cycle (DSP)",
            vec![
                "Mama",
                "Fama",
                "FisherTransform",
                "InverseFisherTransform",
                "SuperSmoother",
                "HilbertDominantCycle",
                "SineWave",
                "Decycler",
                "DecyclerOscillator",
                "RoofingFilter",
                "CenterOfGravity",
                "CyberneticCycle",
                "AdaptiveCycle",
                "EmpiricalModeDecomposition",
                "EhlersStochastic",
                "InstantaneousTrendline",
            ],
        ),
        (
            "Pivots & S/R",
            vec![
                "ClassicPivots",
                "FibonacciPivots",
                "Camarilla",
                "WoodiePivots",
                "DemarkPivots",
                "WilliamsFractals",
                "ZigZag",
            ],
        ),
        (
            "DeMark",
            vec![
                "TdSetup",
                "TdSequential",
                "TdDeMarker",
                "TdRei",
                "TdPressure",
                "TdCombo",
                "TdCountdown",
                "TdLines",
                "TdRangeProjection",
                "TdDifferential",
                "TdOpen",
                "TdRiskLevel",
            ],
        ),
        (
            "Ichimoku & Charts",
            vec![
                "Ichimoku",
                "HeikinAshi",
            ],
        ),
        (
            "Candlestick Patterns",
            vec![
                "Doji",
                "Hammer",
                "InvertedHammer",
                "HangingMan",
                "ShootingStar",
                "Engulfing",
                "Harami",
                "MorningEveningStar",
                "ThreeSoldiersOrCrows",
                "PiercingDarkCloud",
                "Marubozu",
                "Tweezer",
                "SpinningTop",
                "ThreeInside",
                "ThreeOutside",
            ],
        ),
        (
            "Market Profile",
            vec![
                "ValueArea",
                "InitialBalance",
                "OpeningRange",
            ],
        ),
        (
            "Risk / Performance",
            vec![
                "SharpeRatio",
                "SortinoRatio",
                "CalmarRatio",
                "OmegaRatio",
                "MaxDrawdown",
                "AverageDrawdown",
                "DrawdownDuration",
                "PainIndex",
                "ValueAtRisk",
                "ConditionalValueAtRisk",
                "ProfitFactor",
                "GainLossRatio",
                "RecoveryFactor",
                "KellyCriterion",
                "TreynorRatio",
                "InformationRatio",
                "Alpha",
            ],
        ),
    ];
    assert(r.deep_view() =~~= catalogue());
    r
}

/// Position of an indicator name in the catalogue, found by branching on the
/// name's length and then on the characters that tell the candidates apart.
spec fn position_of(s: Seq<char>) -> (int, int) {
    if s.len() == 2 {
        (0int, 10int)
    } else if s.len() == 3 {
        if s[0] == 'A' {
            if s[1] == 'd' {
                if s[2] == 'l' {
                    (7int, 3int)
                } else if s[2] == 'x' {
                    (2int, 1int)
                } else {
                    (-1int, -1int)
                }
            } else if s[1] == 'p' {
                (3int, 5int)
            } else if s[1] == 't' {
                (4int, 0int)
            } else {
                (-1int, -1int)
            }
        } else if s[0] == 'C' {
            if s[1] == 'c' {
                (1int, 2int)
            } else if s[1] == 'f' {
                (3int, 7int)
            } else if s[1] == 'm' {
                (1int, 8int)
            } else {
                (-1int, -1int)
            }
        } else if s[0] == 'D' {
            (3int, 1int)
        } else if s[0] == 'E' {
            (0int, 1int)
        } else if s[0] == 'H' {
            (0int, 5int)
        } else if s[0] == 'J' {
            (0int, 16int)
        } else if s[0] == 'K' {
            if s[1] == 's' {
                (1int, 15int)
            } else if s[1] == 'v' {
                (7int, 9int)
            } else {
                (-1int, -1int)
            }
        } else if s[0] == 'M' {
            if s[1] == 'f' {
                (1int, 5int)
            } else if s[1] == 'o' {
                (1int, 7int)
            } else {
                (-1int, -1int)
            }
        } else if s[0] == 'N' {
            (7int, 11int)
        } else if s[0] == 'O' {
            (7int, 0int)
        } else if s[0] == 'P' {
            if s[1] == 'g' {
                (1int, 14int)
            } else if s[1] == 'm' {
                (1int, 10int)
            } else if s[1] == 'p' {
                (3int, 0int)
            } else if s[1] == 'v' {
                (7int, 12int)
            } else {
                (-1int, -1int)
            }
        } else if s[0] == 'R' {
            if s[1] == 'o' {
                (1int, 3int)
            } else if s[1] == 's' {
                (1int, 0int)
            } else if s[1] == 'v' {
                (1int, 13int)
            } else if s[1] == 'w' {
                (2int, 7int)
            } else {
                (-1int, -1int)
            }
        } else if s[0] == 'S' {
            if s[1] == 'm' {
                if s[2] == 'a' {
                    (0int, 0int)
                } else if s[2] == 'i' {
                    (1int, 16int)
                } else {
                    (-1int, -1int)
                }
            } else if s[1] == 't' {
                (3int, 10int)
            } else {
                (-1int, -1int)
            }
        } else if s[0] == 'T' {
            if s[1] == 'i' {
                (2int, 8int)
            } else if s[1] == 's' {
                if s[2] == 'i' {
                    (1int, 9int)
                } else if s[2] == 'v' {
                    (7int, 16int)
                } else {
                    (-1int, -1int)
                }
            } else {
                (-1int, -1int)
            }
        } else if s[0] == 'V' {
            (7int, 17int)
        } else if s[0] == 'W' {
            (0int, 2int)
        } else {
            (-1int, -1int)
        }
    } else if s.len() == 4 {
        if s[0] == 'A' {
            if s[1] == 'd' {
                (2int, 2int)
            } else if s[1] == 'l' {
                (0int, 12int)
            } else {
                (-1int, -1int)
            }
        } else if s[0] == 'B' {
            (8int, 18int)
        } else if s[0] == 'D' {
            if s[1] == 'e' {
                (0int, 3int)
            } else if s[1] == 'o' {
                (13int, 0int)
            } else {
                (-1int, -1int)
            }
        } else if s[0] == 'F' {
            (9int, 1int)
        } else if s[0] == 'K' {
            (0int, 6int)
        } else if s[0] == 'M' {
            (9int, 0int)
        } else if s[0] == 'N' {
            (4int, 4int)
        } else if s[0] == 'P' {
            (6int, 0int)
        } else if s[0] == 'S' {
            (0int, 7int)
        } else if s[0] == 'T' {
            if s[1] == 'e' {
                (0int, 4int)
            } else if s[1] == 'r' {
                (2int, 4int)
            } else {
                (-1int, -1int)
            }
        } else if s[0] == 'V' {
            if s[2] == 'a' {
                (7int, 1int)
            } else if s[2] == 'm' {
                (0int, 11int)
            } else {
                (-1int, -1int)
            }
        } else {
            (-1int, -1int)
        }
    } else if s.len() == 5 {
        if s[0] == 'A' {
            if s[1] == 'l' {
                (15int, 16int)
            } else if s[1] == 'r' {
                (2int, 3int)
            } else {
                (-1int, -1int)
            }
        } else if s[0] == 'E' {
            (0int, 18int)
        } else if s[0] == 'F' {
            (0int, 14int)
        } else if s[0] == 'T' {
            if s[1] == 'd' {
                (11int, 3int)
            } else if s[1] == 'r' {
                (0int, 8int)
            } else {
                (-1int, -1int)
            }
        } else if s[0] == 'V' {
            (0int, 15int)
        } else if s[0] == 'Z' {
            (0int, 9int)
        } else {
            (-1int, -1int)
        }
    } else if s.len() == 6 {
        if s[0] == 'H' {
            if s[2] == 'm' {
                (13int, 1int)
            } else if s[2] == 'r' {
                (13int, 6int)
            } else {
                (-1int, -1int)
            }
        } else if s[0] == 'S' {
            (4int, 5int)
        } else if s[0] == 'T' {
            (11int, 10int)
        } else if s[0] == 'V' {
            (2int, 6int)
        } else if s[0] == 'Z' {
            if s[1] == 'S' {
                (8int, 5int)
            } else if s[1] == 'i' {
                (10int, 6int)
            } else {
                (-1int, -1int)
            }
        } else {
            (-1int, -1int)
        }
    } else if s.len() == 7 {
        if s[0] == 'C' {
            (3int, 2int)
        } else if s[0] == 'I' {
            (1int, 19int)
        } else if s[0] == 'K' {
            (4int, 2int)
        } else if s[0] == 'T' {
            if s[1] == 'd' {
                if s[2] == 'C' {
                    (11int, 5int)
                } else if s[2] == 'L' {
                    (11int, 7int)
                } else if s[2] == 'S' {
                    (11int, 0int)
                } else {
                    (-1int, -1int)
                }
            } else if s[1] == 'w' {
                (13int, 11int)
            } else {
                (-1int, -1int)
            }
        } else {
            (-1int, -1int)
        }
    } else if s.len() == 8 {
        if s[0] == 'A' {
            (5int, 3int)
        } else if s[0] == 'D' {
            if s[1] == 'e' {
                (9int, 7int)
            } else if s[1] == 'o' {
                (4int, 3int)
            } else {
                (-1int, -1int)
            }
        } else if s[0] == 'I' {
            (12int, 0int)
        } else if s[0] == 'K' {
            (8int, 10int)
        } else if s[0] == 'M' {
            (13int, 10int)
        } else if s[0] == 'P' {
            (4int, 9int)
        } else if s[0] == 'R' {
            (8int, 13int)
        } else if s[0] == 'S' {
            if s[1] == 'i' {
                (9int, 6int)
            } else if s[1] == 'k' {
                (8int, 9int)
            } else if s[1] == 't' {
                (1int, 11int)
            } else {
                (-1int, -1int)
            }
        } else if s[0] == 'V' {
            (8int, 7int)
        } else if s[0] == 'Y' {
            (6int, 7int)
        } else {
            (-1int, -1int)
        }
    } else if s.len() == 9 {
        if s[0] == 'A' {
            (0int, 17int)
        } else if s[0] == 'C' {
            (10int, 2int)
        } else if s[0] == 'E' {
            (13int, 5int)
        } else if s[0] == 'M' {
            (2int, 10int)
        } else if s[0] == 'P' {
            (15int, 7int)
        } else if s[0] == 'T' {
            (4int, 10int)
        } else if s[0] == 'V' {
            if s[1] == 'a' {
                (14int, 0int)
            } else if s[1] == 'o' {
                (6int, 6int)
            } else {
                (-1int, -1int)
            }
        } else if s[0] == 'W' {
            if s[1] == 'a' {
                (2int, 9int)
            } else if s[1] == 'i' {
                (1int, 4int)
            } else {
                (-1int, -1int)
            }
        } else {
            (-1int, -1int)
        }
    } else if s.len() == 10 {
        if s[0] == 'C' {
            (1int, 18int)
        } else if s[0] == 'F' {
            (7int, 7int)
        } else if s[0] == 'H' {
            if s[1] == 'a' {
                (13int, 3int)
            } else if s[1] == 'e' {
                (12int, 1int)
            } else {
                (-1int, -1int)
            }
        } else if s[0] == 'M' {
            (5int, 0int)
        } else if s[0] == 'O' {
            (15int, 3int)
        } else if s[0] == 'S' {
            if s[1] == 't' {
                if s[2] == 'a' {
                    (5int, 2int)
                } else if s[2] == 'o' {
                    (1int, 1int)
                } else {
                    (-1int, -1int)
                }
            } else if s[1] == 'u' {
                (6int, 1int)
            } else {
                (-1int, -1int)
            }
        } else if s[0] == 'T' {
            if s[1] == 'd' {
                if s[2] == 'D' {
                    (11int, 2int)
                } else if s[2] == 'P' {
                    (11int, 4int)
                } else {
                    (-1int, -1int)
                }
            } else if s[1] == 't' {
                (5int, 8int)
            } else {
                (-1int, -1int)
            }
        } else if s[0] == 'U' {
            (4int, 6int)
        } else {
            (-1int, -1int)
        }
    } else if s.len() == 11 {
        if s[0] == 'C' {
            (15int, 2int)
        } else if s[0] == 'D' {
            (7int, 15int)
        } else if s[0] == 'L' {
            if s[1] == 'a' {
                (1int, 17int)
            } else if s[1] == 'i' {
                if s[6] == 'A' {
                    (8int, 6int)
                } else if s[6] == 'S' {
                    (8int, 4int)
                } else {
                    (-1int, -1int)
                }
            } else {
                (-1int, -1int)
            }
        } else if s[0] == 'M' {
            if s[1] == 'a' {
                (15int, 4int)
            } else if s[1] == 'e' {
                (8int, 1int)
            } else {
                (-1int, -1int)
            }
        } else if s[0] == 'R' {
            (7int, 2int)
        } else if s[0] == 'S' {
            if s[1] == 'h' {
                (15int, 0int)
            } else if s[1] == 'p' {
                (13int, 12int)
            } else {
                (-1int, -1int)
            }
        } else if s[0] == 'T' {
            if s[1] == 'd' {
                if s[2] == 'C' {
                    (11int, 6int)
                } else if s[2] == 'R' {
                    (11int, 11int)
                } else {
                    (-1int, -1int)
                }
            } else if s[1] == 'h' {
                (13int, 13int)
            } else {
                (-1int, -1int)
            }
        } else if s[0] == 'V' {
            (15int, 8int)
        } else if s[0] == 'Z' {
            (3int, 8int)
        } else {
            (-1int, -1int)
        }
    } else if s.len() == 12 {
        if s[0] == 'A' {
            if s[1] == 'd' {
                (7int, 13int)
            } else if s[1] == 'n' {
                (7int, 14int)
            } else {
                (-1int, -1int)
            }
        } else if s[0] == 'D' {
            if s[1] == 'e' {
                (10int, 4int)
            } else if s[1] == 'o' {
                (6int, 8int)
            } else {
                (-1int, -1int)
            }
        } else if s[0] == 'E' {
            (3int, 9int)
        } else if s[0] == 'H' {
            (5int, 4int)
        } else if s[0] == 'O' {
            (14int, 2int)
        } else if s[0] == 'P' {
            (15int, 10int)
        } else if s[0] == 'S' {
            if s[1] == 'h' {
                (13int, 4int)
            } else if s[1] == 'o' {
                (15int, 1int)
            } else {
                (-1int, -1int)
            }
        } else if s[0] == 'T' {
            if s[1] == 'd' {
                (11int, 1int)
            } else if s[1] == 'h' {
                (13int, 14int)
            } else if s[1] == 'r' {
                (15int, 14int)
            } else if s[1] == 'y' {
                (8int, 0int)
            } else {
                (-1int, -1int)
            }
        } else if s[0] == 'W' {
            (10int, 3int)
        } else {
            (-1int, -1int)
        }
    } else if s.len() == 13 {
        if s[0] == 'A' {
            (9int, 12int)
        } else if s[0] == 'C' {
            (10int, 0int)
        } else if s[0] == 'G' {
            (15int, 11int)
        } else if s[0] == 'H' {
            if s[1] == 'i' {
                (6int, 5int)
            } else if s[1] == 'u' {
                (8int, 16int)
            } else {
                (-1int, -1int)
            }
        } else if s[0] == 'L' {
            (5int, 5int)
        } else if s[0] == 'M' {
            (2int, 0int)
        } else if s[0] == 'R' {
            if s[1] == 'o' {
                (9int, 9int)
            } else if s[1] == 'v' {
                (4int, 12int)
            } else {
                (-1int, -1int)
            }
        } else if s[0] == 'S' {
            if s[1] == 't' {
                (8int, 11int)
            } else if s[1] == 'u' {
                (9int, 4int)
            } else {
                (-1int, -1int)
            }
        } else if s[0] == 'W' {
            (8int, 2int)
        } else {
            (-1int, -1int)
        }
    } else if s.len() == 14 {
        if s[0] == 'B' {
            if s[1] == 'a' {
                (3int, 4int)
            } else if s[1] == 'o' {
                (4int, 1int)
            } else {
                (-1int, -1int)
            }
        } else if s[0] == 'C' {
            (6int, 2int)
        } else if s[0] == 'E' {
            (7int, 8int)
        } else if s[0] == 'I' {
            if s[2] == 'i' {
                (14int, 1int)
            } else if s[2] == 'v' {
                (13int, 2int)
            } else {
                (-1int, -1int)
            }
        } else if s[0] == 'K' {
            (15int, 13int)
        } else if s[0] == 'R' {
            (15int, 12int)
        } else if s[0] == 'T' {
            (11int, 9int)
        } else {
            (-1int, -1int)
        }
    } else if s.len() == 15 {
        if s[0] == 'A' {
            if s[1] == 'r' {
                (2int, 5int)
            } else if s[1] == 't' {
                (6int, 4int)
            } else if s[1] == 'u' {
                (8int, 15int)
            } else if s[1] == 'v' {
                (15int, 5int)
            } else {
                (-1int, -1int)
            }
        } else if s[0] == 'C' {
            if s[1] == 'e' {
                (9int, 10int)
            } else if s[1] == 'h' {
                if s[2] == 'a' {
                    (6int, 3int)
                } else if s[2] == 'o' {
                    (2int, 11int)
                } else {
                    (-1int, -1int)
                }
            } else if s[1] == 'y' {
                (9int, 11int)
            } else {
                (-1int, -1int)
            }
        } else if s[0] == 'D' {
            if s[1] == 'e' {
                (8int, 12int)
            } else if s[1] == 'o' {
                (5int, 7int)
            } else {
                (-1int, -1int)
            }
        } else if s[0] == 'F' {
            if s[2] == 'b' {
                (10int, 1int)
            } else if s[2] == 's' {
                (9int, 2int)
            } else {
                (-1int, -1int)
            }
        } else if s[0] == 'M' {
            (0int, 13int)
        } else if s[0] == 'V' {
            (5int, 10int)
        } else {
            (-1int, -1int)
        }
    } else if s.len() == 16 {
        if s[0] == 'C' {
            (7int, 5int)
        } else if s[0] == 'D' {
            (15int, 6int)
        } else if s[0] == 'E' {
            (9int, 14int)
        } else if s[0] == 'I' {
            (15int, 15int)
        } else if s[0] == 'L' {
            (8int, 3int)
        } else if s[0] == 'S' {
            (6int, 10int)
        } else if s[0] == 'V' {
            if s[6] == 'O' {
                (7int, 10int)
            } else if s[6] == 'P' {
                (7int, 4int)
            } else {
                (-1int, -1int)
            }
        } else if s[0] == 'W' {
            (10int, 5int)
        } else {
            (-1int, -1int)
        }
    } else if s.len() == 17 {
        if s[0] == 'A' {
            if s[1] == 'c' {
                (5int, 1int)
            } else if s[1] == 'w' {
                (1int, 6int)
            } else {
                (-1int, -1int)
            }
        } else if s[0] == 'C' {
            if s[7] == 'O' {
                (7int, 6int)
            } else if s[7] == 'V' {
                (4int, 11int)
            } else {
                (-1int, -1int)
            }
        } else if s[0] == 'F' {
            (5int, 9int)
        } else if s[0] == 'P' {
            (13int, 9int)
        } else if s[0] == 'R' {
            (6int, 11int)
        } else if s[0] == 'T' {
            (11int, 8int)
        } else {
            (-1int, -1int)
        }
    } else if s.len() == 18 {
        if s[0] == 'B' {
            (4int, 8int)
        } else if s[0] == 'D' {
            (9int, 8int)
        } else if s[0] == 'M' {
            (13int, 7int)
        } else if s[0] == 'P' {
            (8int, 17int)
        } else if s[0] == 'S' {
            (5int, 6int)
        } else if s[0] == 'U' {
            (1int, 12int)
        } else {
            (-1int, -1int)
        }
    } else if s.len() == 19 {
        if s[0] == 'P' {
            (4int, 13int)
        } else if s[0] == 'S' {
            (8int, 19int)
        } else if s[0] == 'Y' {
            (4int, 16int)
        } else {
            (-1int, -1int)
        }
    } else if s.len() == 20 {
        if s[0] == 'H' {
            if s[2] == 'l' {
                (9int, 5int)
            } else if s[2] == 's' {
                (4int, 7int)
            } else {
                (-1int, -1int)
            }
        } else if s[0] == 'T' {
            (13int, 8int)
        } else {
            (-1int, -1int)
        }
    } else if s.len() == 21 {
        if s[0] == 'A' {
            (3int, 3int)
        } else if s[0] == 'G' {
            (4int, 14int)
        } else {
            (-1int, -1int)
        }
    } else if s.len() == 22 {
        if s[0] == 'C' {
            if s[2] == 'e' {
                (8int, 8int)
            } else if s[2] == 'n' {
                (15int, 9int)
            } else {
                (-1int, -1int)
            }
        } else if s[0] == 'I' {
            if s[2] == 's' {
                (9int, 15int)
            } else if s[2] == 'v' {
                (9int, 3int)
            } else {
                (-1int, -1int)
            }
        } else if s[0] == 'P' {
            (6int, 9int)
        } else {
            (-1int, -1int)
        }
    } else if s.len() == 23 {
        if s[1] == 'a' {
            (7int, 18int)
        } else if s[1] == 'e' {
            (8int, 14int)
        } else {
            (-1int, -1int)
        }
    } else if s.len() == 24 {
        if s[0] == 'R' {
            (4int, 15int)
        } else if s[0] == 'V' {
            (2int, 12int)
        } else {
            (-1int, -1int)
        }
    } else if s.len() == 26 {
        if s[0] == 'A' {
            (3int, 6int)
        } else if s[0] == 'E' {
            (9int, 13int)
        } else {
            (-1int, -1int)
        }
    } else {
        (-1int, -1int)
    }
}

proof fn lemma_positions_family_0(j: int)
    requires
        0 <= j < 19,
    ensures
        position_of(member_name(0, j)) == (0int, j),
{
    reveal_strlit("Sma");
    reveal_strlit("Ema");
    reveal_strlit("Wma");
    reveal_strlit("Dema");
    reveal_strlit("Tema");
    reveal_strlit("Hma");
    reveal_strlit("Kama");
    reveal_strlit("Smma");
    reveal_strlit("Trima");
    reveal_strlit("Zlema");
    reveal_strlit("T3");
    reveal_strlit("Vwma");
    reveal_strlit("Alma");
    reveal_strlit("McGinleyDynamic");
    reveal_strlit("Frama");
    reveal_strlit("Vidya");
    reveal_strlit("Jma");
    reveal_strlit("Alligator");
    reveal_strlit("Evwma");
    if j == 0 {
        assert(member_name(0, 0) == "Sma"@);
    } else if j == 1 {
        assert(member_name(0, 1) == "Ema"@);
    } else if j == 2 {
        assert(member_name(0, 2) == "Wma"@);
    } else if j == 3 {
        assert(member_name(0, 3) == "Dema"@);
    } else if j == 4 {
        assert(member_name(0, 4) == "Tema"@);
    } else if j == 5 {
        assert(member_name(0, 5) == "Hma"@);
    } else if j == 6 {
        assert(member_name(0, 6) == "Kama"@);
    } else if j == 7 {
        assert(member_name(0, 7) == "Smma"@);
    } else if j == 8 {
        assert(member_name(0, 8) == "Trima"@);
    } else if j == 9 {
        assert(member_name(0, 9) == "Zlema"@);
    } else if j == 10 {
        assert(member_name(0, 10) == "T3"@);
    } else if j == 11 {
        assert(member_name(0, 11) == "Vwma"@);
    } else if j == 12 {
        assert(member_name(0, 12) == "Alma"@);
    } else if j == 13 {
        assert(member_name(0, 13) == "McGinleyDynamic"@);
    } else if j == 14 {
        assert(member_name(0, 14) == "Frama"@);
    } else if j == 15 {
        assert(member_name(0, 15) == "Vidya"@);
    } else if j == 16 {
        assert(member_name(0, 16) == "Jma"@);
    } else if j == 17 {
        assert(member_name(0, 17) == "Alligator"@);
    } else if j == 18 {
        assert(member_name(0, 18) == "Evwma"@);
    }
}

proof fn lemma_positions_family_1(j: int)
    requires
        0 <= j < 20,
    ensures
        position_of(member_name(1, j)) == (1int, j),
{
    reveal_strlit("Rsi");
    reveal_strlit("Stochastic");
    reveal_strlit("Cci");
    reveal_strlit("Roc");
    reveal_strlit("WilliamsR");
    reveal_strlit("Mfi");
    reveal_strlit("AwesomeOscillator");
    reveal_strlit("Mom");
    reveal_strlit("Cmo");
    reveal_strlit("Tsi");
    reveal_strlit("Pmo");
    reveal_strlit("StochRsi");
    reveal_strlit("UltimateOscillator");
    reveal_strlit("Rvi");
    reveal_strlit("Pgo");
    reveal_strlit("Kst");
    reveal_strlit("Smi");
    reveal_strlit("LaguerreRsi");
    reveal_strlit("ConnorsRsi");
    reveal_strlit("Inertia");
    if j == 0 {
        assert(member_name(1, 0) == "Rsi"@);
    } else if j == 1 {
        assert(member_name(1, 1) == "Stochastic"@);
    } else if j == 2 {
        assert(member_name(1, 2) == "Cci"@);
    } else if j == 3 {
        assert(member_name(1, 3) == "Roc"@);
    } else if j == 4 {
        assert(member_name(1, 4) == "WilliamsR"@);
    } else if j == 5 {
        assert(member_name(1, 5) == "Mfi"@);
    } else if j == 6 {
        assert(member_name(1, 6) == "AwesomeOscillator"@);
    } else if j == 7 {
        assert(member_name(1, 7) == "Mom"@);
    } else if j == 8 {
        assert(member_name(1, 8) == "Cmo"@);
    } else if j == 9 {
        assert(member_name(1, 9) == "Tsi"@);
    } else if j == 10 {
        assert(member_name(1, 10) == "Pmo"@);
    } else if j == 11 {
        assert(member_name(1, 11) == "StochRsi"@);
    } else if j == 12 {
        assert(member_name(1, 12) == "UltimateOscillator"@);
    } else if j == 13 {
        assert(member_name(1, 13) == "Rvi"@);
    } else if j == 14 {
        assert(member_name(1, 14) == "Pgo"@);
    } else if j == 15 {
        assert(member_name(1, 15) == "Kst"@);
    } else if j == 16 {
        assert(member_name(1, 16) == "Smi"@);
    } else if j == 17 {
        assert(member_name(1, 17) == "LaguerreRsi"@);
    } else if j == 18 {
        assert(member_name(1, 18) == "ConnorsRsi"@);
    } else if j == 19 {
        assert(member_name(1, 19) == "Inertia"@);
    }
}

proof fn lemma_positions_family_2(j: int)
    requires
        0 <= j < 13,
    ensures
        position_of(member_name(2, j)) == (2int, j),
{
    reveal_strlit("MacdIndicator");
    reveal_strlit("Adx");
    reveal_strlit("Adxr");
    reveal_strlit("Aroon");
    reveal_strlit("Trix");
    reveal_strlit("AroonOscillator");
    reveal_strlit("Vortex");
    reveal_strlit("Rwi");
    reveal_strlit("Tii");
    reveal_strlit("WaveTrend");
    reveal_strlit("MassIndex");
    reveal_strlit("ChoppinessIndex");
    reveal_strlit("VerticalHorizontalFilter");
    if j == 0 {
        assert(member_name(2, 0) == "MacdIndicator"@);
    } else if j == 1 {
        assert(member_name(2, 1) == "Adx"@);
    } else if j == 2 {
        assert(member_name(2, 2) == "Adxr"@);
    } else if j == 3 {
        assert(member_name(2, 3) == "Aroon"@);
    } else if j == 4 {
        assert(member_name(2, 4) == "Trix"@);
    } else if j == 5 {
        assert(member_name(2, 5) == "AroonOscillator"@);
    } else if j == 6 {
        assert(member_name(2, 6) == "Vortex"@);
    } else if j == 7 {
        assert(member_name(2, 7) == "Rwi"@);
    } else if j == 8 {
        assert(member_name(2, 8) == "Tii"@);
    } else if j == 9 {
        assert(member_name(2, 9) == "WaveTrend"@);
    } else if j == 10 {
        assert(member_name(2, 10) == "MassIndex"@);
    } else if j == 11 {
        assert(member_name(2, 11) == "ChoppinessIndex"@);
    } else if j == 12 {
        assert(member_name(2, 12) == "VerticalHorizontalFilter"@);
    }
}

proof fn lemma_positions_family_3(j: int)
    requires
        0 <= j < 11,
    ensures
        position_of(member_name(3, j)) == (3int, j),
{
    reveal_strlit("Ppo");
    reveal_strlit("Dpo");
    reveal_strlit("Coppock");
    reveal_strlit("AcceleratorOscillator");
    reveal_strlit("BalanceOfPower");
    reveal_strlit("Apo");
    reveal_strlit("AwesomeOscillatorHistogram");
    reveal_strlit("Cfo");
    reveal_strlit("ZeroLagMacd");
    reveal_strlit("ElderImpulse");
    reveal_strlit("Stc");
    if j == 0 {
        assert(member_name(3, 0) == "Ppo"@);
    } else if j == 1 {
        assert(member_name(3, 1) == "Dpo"@);
    } else if j == 2 {
        assert(member_name(3, 2) == "Coppock"@);
    } else if j == 3 {
        assert(member_name(3, 3) == "AcceleratorOscillator"@);
    } else if j == 4 {
        assert(member_name(3, 4) == "BalanceOfPower"@);
    } else if j == 5 {
        assert(member_name(3, 5) == "Apo"@);
    } else if j == 6 {
        assert(member_name(3, 6) == "AwesomeOscillatorHistogram"@);
    } else if j == 7 {
        assert(member_name(3, 7) == "Cfo"@);
    } else if j == 8 {
        assert(member_name(3, 8) == "ZeroLagMacd"@);
    } else if j == 9 {
        assert(member_name(3, 9) == "ElderImpulse"@);
    } else if j == 10 {
        assert(member_name(3, 10) == "Stc"@);
    }
}

proof fn lemma_positions_family_4(j: int)
    requires
        0 <= j < 17,
    ensures
        position_of(member_name(4, j)) == (4int, j),
{
    reveal_strlit("Atr");
    reveal_strlit("BollingerBands");
    reveal_strlit("Keltner");
    reveal_strlit("Donchian");
    reveal_strlit("Natr");
    reveal_strlit("StdDev");
    reveal_strlit("UlcerIndex");
    reveal_strlit("HistoricalVolatility");
    reveal_strlit("BollingerBandwidth");
    reveal_strlit("PercentB");
    reveal_strlit("TrueRange");
    reveal_strlit("ChaikinVolatility");
    reveal_strlit("RviVolatility");
    reveal_strlit("ParkinsonVolatility");
    reveal_strlit("GarmanKlassVolatility");
    reveal_strlit("RogersSatchellVolatility");
    reveal_strlit("YangZhangVolatility");
    if j == 0 {
        assert(member_name(4, 0) == "Atr"@);
    } else if j == 1 {
        assert(member_name(4, 1) == "BollingerBands"@);
    } else if j == 2 {
        assert(member_name(4, 2) == "Keltner"@);
    } else if j == 3 {
        assert(member_name(4, 3) == "Donchian"@);
    } else if j == 4 {
        assert(member_name(4, 4) == "Natr"@);
    } else if j == 5 {
        assert(member_name(4, 5) == "StdDev"@);
    } else if j == 6 {
        assert(member_name(4, 6) == "UlcerIndex"@);
    } else if j == 7 {
        assert(member_name(4, 7) == "HistoricalVolatility"@);
    } else if j == 8 {
        assert(member_name(4, 8) == "BollingerBandwidth"@);
    } else if j == 9 {
        assert(member_name(4, 9) == "PercentB"@);
    } else if j == 10 {
        assert(member_name(4, 10) == "TrueRange"@);
    } else if j == 11 {
        assert(member_name(4, 11) == "ChaikinVolatility"@);
    } else if j == 12 {
        assert(member_name(4, 12) == "RviVolatility"@);
    } else if j == 13 {
        assert(member_name(4, 13) == "ParkinsonVolatility"@);
    } else if j == 14 {
        assert(member_name(4, 14) == "GarmanKlassVolatility"@);
    } else if j == 15 {
        assert(member_name(4, 15) == "RogersSatchellVolatility"@);
    } else if j == 16 {
        assert(member_name(4, 16) == "YangZhangVolatility"@);
    }
}

proof fn lemma_positions_family_5(j: int)
    requires
        0 <= j < 11,
    ensures
        position_of(member_name(5, j)) == (5int, j),
{
    reveal_strlit("MaEnvelope");
    reveal_strlit("AccelerationBands");
    reveal_strlit("StarcBands");
    reveal_strlit("AtrBands");
    reveal_strlit("HurstChannel");
    reveal_strlit("LinRegChannel");
    reveal_strlit("StandardErrorBands");
    reveal_strlit("DoubleBollinger");
    reveal_strlit("TtmSqueeze");
    reveal_strlit("FractalChaosBands");
    reveal_strlit("VwapStdDevBands");
    if j == 0 {
        assert(member_name(5, 0) == "MaEnvelope"@);
    } else if j == 1 {
        assert(member_name(5, 1) == "AccelerationBands"@);
    } else if j == 2 {
        assert(member_name(5, 2) == "StarcBands"@);
    } else if j == 3 {
        assert(member_name(5, 3) == "AtrBands"@);
    } else if j == 4 {
        assert(member_name(5, 4) == "HurstChannel"@);
    } else if j == 5 {
        assert(member_name(5, 5) == "LinRegChannel"@);
    } else if j == 6 {
        assert(member_name(5, 6) == "StandardErrorBands"@);
    } else if j == 7 {
        assert(member_name(5, 7) == "DoubleBollinger"@);
    } else if j == 8 {
        assert(member_name(5, 8) == "TtmSqueeze"@);
    } else if j == 9 {
        assert(member_name(5, 9) == "FractalChaosBands"@);
    } else if j == 10 {
        assert(member_name(5, 10) == "VwapStdDevBands"@);
    }
}

proof fn lemma_positions_family_6(j: int)
    requires
        0 <= j < 12,
    ensures
        position_of(member_name(6, j)) == (6int, j),
{
    reveal_strlit("Psar");
    reveal_strlit("SuperTrend");
    reveal_strlit("ChandelierExit");
    reveal_strlit("ChandeKrollStop");
    reveal_strlit("AtrTrailingStop");
    reveal_strlit("HiLoActivator");
    reveal_strlit("VoltyStop");
    reveal_strlit("YoyoExit");
    reveal_strlit("DonchianStop");
    reveal_strlit("PercentageTrailingStop");
    reveal_strlit("StepTrailingStop");
    reveal_strlit("RenkoTrailingStop");
    if j == 0 {
        assert(member_name(6, 0) == "Psar"@);
    } else if j == 1 {
        assert(member_name(6, 1) == "SuperTrend"@);
    } else if j == 2 {
        assert(member_name(6, 2) == "ChandelierExit"@);
    } else if j == 3 {
        assert(member_name(6, 3) == "ChandeKrollStop"@);
    } else if j == 4 {
        assert(member_name(6, 4) == "AtrTrailingStop"@);
    } else if j == 5 {
        assert(member_name(6, 5) == "HiLoActivator"@);
    } else if j == 6 {
        assert(member_name(6, 6) == "VoltyStop"@);
    } else if j == 7 {
        assert(member_name(6, 7) == "YoyoExit"@);
    } else if j == 8 {
        assert(member_name(6, 8) == "DonchianStop"@);
    } else if j == 9 {
        assert(member_name(6, 9) == "PercentageTrailingStop"@);
    } else if j == 10 {
        assert(member_name(6, 10) == "StepTrailingStop"@);
    } else if j == 11 {
        assert(member_name(6, 11) == "RenkoTrailingStop"@);
    }
}

proof fn lemma_positions_family_7(j: int)
    requires
        0 <= j < 19,
    ensures
        position_of(member_name(7, j)) == (7int, j),
{
    reveal_strlit("Obv");
    reveal_strlit("Vwap");
    reveal_strlit("RollingVwap");
    reveal_strlit("Adl");
    reveal_strlit("VolumePriceTrend");
    reveal_strlit("ChaikinMoneyFlow");
    reveal_strlit("ChaikinOscillator");
    reveal_strlit("ForceIndex");
    reveal_strlit("EaseOfMovement");
    reveal_strlit("Kvo");
    reveal_strlit("VolumeOscillator");
    reveal_strlit("Nvi");
    reveal_strlit("Pvi");
    reveal_strlit("AdOscillator");
    reveal_strlit("AnchoredVwap");
    reveal_strlit("DemandIndex");
    reveal_strlit("Tsv");
    reveal_strlit("Vzo");
    reveal_strlit("MarketFacilitationIndex");
    if j == 0 {
        assert(member_name(7, 0) == "Obv"@);
    } else if j == 1 {
        assert(member_name(7, 1) == "Vwap"@);
    } else if j == 2 {
        assert(member_name(7, 2) == "RollingVwap"@);
    } else if j == 3 {
        assert(member_name(7, 3) == "Adl"@);
    } else if j == 4 {
        assert(member_name(7, 4) == "VolumePriceTrend"@);
    } else if j == 5 {
        assert(member_name(7, 5) == "ChaikinMoneyFlow"@);
    } else if j == 6 {
        assert(member_name(7, 6) == "ChaikinOscillator"@);
    } else if j == 7 {
        assert(member_name(7, 7) == "ForceIndex"@);
    } else if j == 8 {
        assert(member_name(7, 8) == "EaseOfMovement"@);
    } else if j == 9 {
        assert(member_name(7, 9) == "Kvo"@);
    } else if j == 10 {
        assert(member_name(7, 10) == "VolumeOscillator"@);
    } else if j == 11 {
        assert(member_name(7, 11) == "Nvi"@);
    } else if j == 12 {
        assert(member_name(7, 12) == "Pvi"@);
    } else if j == 13 {
        assert(member_name(7, 13) == "AdOscillator"@);
    } else if j == 14 {
        assert(member_name(7, 14) == "AnchoredVwap"@);
    } else if j == 15 {
        assert(member_name(7, 15) == "DemandIndex"@);
    } else if j == 16 {
        assert(member_name(7, 16) == "Tsv"@);
    } else if j == 17 {
        assert(member_name(7, 17) == "Vzo"@);
    } else if j == 18 {
        assert(member_name(7, 18) == "MarketFacilitationIndex"@);
    }
}

proof fn lemma_positions_family_8(j: int)
    requires
        0 <= j < 20,
    ensures
        position_of(member_name(8, j)) == (8int, j),
{
    reveal_strlit("TypicalPrice");
    reveal_strlit("MedianPrice");
    reveal_strlit("WeightedClose");
    reveal_strlit("LinearRegression");
    reveal_strlit("LinRegSlope");
    reveal_strlit("ZScore");
    reveal_strlit("LinRegAngle");
    reveal_strlit("Variance");
    reveal_strlit("CoefficientOfVariation");
    reveal_strlit("Skewness");
    reveal_strlit("Kurtosis");
    reveal_strlit("StandardError");
    reveal_strlit("DetrendedStdDev");
    reveal_strlit("RSquared");
    reveal_strlit("MedianAbsoluteDeviation");
    reveal_strlit("Autocorrelation");
    reveal_strlit("HurstExponent");
    reveal_strlit("PearsonCorrelation");
    reveal_strlit("Beta");
    reveal_strlit("SpearmanCorrelation");
    if j == 0 {
        assert(member_name(8, 0) == "TypicalPrice"@);
    } else if j == 1 {
        assert(member_name(8, 1) == "MedianPrice"@);
    } else if j == 2 {
        assert(member_name(8, 2) == "WeightedClose"@);
    } else if j == 3 {
        assert(member_name(8, 3) == "LinearRegression"@);
    } else if j == 4 {
        assert(member_name(8, 4) == "LinRegSlope"@);
    } else if j == 5 {
        assert(member_name(8, 5) == "ZScore"@);
    } else if j == 6 {
        assert(member_name(8, 6) == "LinRegAngle"@);
    } else if j == 7 {
        assert(member_name(8, 7) == "Variance"@);
    } else if j == 8 {
        assert(member_name(8, 8) == "CoefficientOfVariation"@);
    } else if j == 9 {
        assert(member_name(8, 9) == "Skewness"@);
    } else if j == 10 {
        assert(member_name(8, 10) == "Kurtosis"@);
    } else if j == 11 {
        assert(member_name(8, 11) == "StandardError"@);
    } else if j == 12 {
        assert(member_name(8, 12) == "DetrendedStdDev"@);
    } else if j == 13 {
        assert(member_name(8, 13) == "RSquared"@);
    } else if j == 14 {
        assert(member_name(8, 14) == "MedianAbsoluteDeviation"@);
    } else if j == 15 {
        assert(member_name(8, 15) == "Autocorrelation"@);
    } else if j == 16 {
        assert(member_name(8, 16) == "HurstExponent"@);
    } else if j == 17 {
        assert(member_name(8, 17) == "PearsonCorrelation"@);
    } else if j == 18 {
        assert(member_name(8, 18) == "Beta"@);
    } else if j == 19 {
        assert(member_name(8, 19) == "SpearmanCorrelation"@);
    }
}

proof fn lemma_positions_family_9(j: int)
    requires
        0 <= j < 16,
    ensures
        position_of(member_name(9, j)) == (9int, j),
{
    reveal_strlit("Mama");
    reveal_strlit("Fama");
    reveal_strlit("FisherTransform");
    reveal_strlit("InverseFisherTransform");
    reveal_strlit("SuperSmoother");
    reveal_strlit("HilbertDominantCycle");
    reveal_strlit("SineWave");
    reveal_strlit("Decycler");
    reveal_strlit("DecyclerOscillator");
    reveal_strlit("RoofingFilter");
    reveal_strlit("CenterOfGravity");
    reveal_strlit("CyberneticCycle");
    reveal_strlit("AdaptiveCycle");
    reveal_strlit("EmpiricalModeDecomposition");
    reveal_strlit("EhlersStochastic");
    reveal_strlit("InstantaneousTrendline");
    if j == 0 {
        assert(member_name(9, 0) == "Mama"@);
    } else if j == 1 {
        assert(member_name(9, 1) == "Fama"@);
    } else if j == 2 {
        assert(member_name(9, 2) == "FisherTransform"@);
    } else if j == 3 {
        assert(member_name(9, 3) == "InverseFisherTransform"@);
    } else if j == 4 {
        assert(member_name(9, 4) == "SuperSmoother"@);
    } else if j == 5 {
        assert(member_name(9, 5) == "HilbertDominantCycle"@);
    } else if j == 6 {
        assert(member_name(9, 6) == "SineWave"@);
    } else if j == 7 {
        assert(member_name(9, 7) == "Decycler"@);
    } else if j == 8 {
        assert(member_name(9, 8) == "DecyclerOscillator"@);
    } else if j == 9 {
        assert(member_name(9, 9) == "RoofingFilter"@);
    } else if j == 10 {
        assert(member_name(9, 10) == "CenterOfGravity"@);
    } else if j == 11 {
        assert(member_name(9, 11) == "CyberneticCycle"@);
    } else if j == 12 {
        assert(member_name(9, 12) == "AdaptiveCycle"@);
    } else if j == 13 {
        assert(member_name(9, 13) == "EmpiricalModeDecomposition"@);
    } else if j == 14 {
        assert(member_name(9, 14) == "EhlersStochastic"@);
    } else if j == 15 {
        assert(member_name(9, 15) == "InstantaneousTrendline"@);
    }
}

proof fn lemma_positions_family_10(j: int)
    requires
        0 <= j < 7,
    ensures
        position_of(member_name(10, j)) == (10int, j),
{
    reveal_strlit("ClassicPivots");
    reveal_strlit("FibonacciPivots");
    reveal_strlit("Camarilla");
    reveal_strlit("WoodiePivots");
    reveal_strlit("DemarkPivots");
    reveal_strlit("WilliamsFractals");
    reveal_strlit("ZigZag");
    if j == 0 {
        assert(member_name(10, 0) == "ClassicPivots"@);
    } else if j == 1 {
        assert(member_name(10, 1) == "FibonacciPivots"@);
    } else if j == 2 {
        assert(member_name(10, 2) == "Camarilla"@);
    } else if j == 3 {
        assert(member_name(10, 3) == "WoodiePivots"@);
    } else if j == 4 {
        assert(member_name(10, 4) == "DemarkPivots"@);
    } else if j == 5 {
        assert(member_name(10, 5) == "WilliamsFractals"@);
    } else if j == 6 {
        assert(member_name(10, 6) == "ZigZag"@);
    }
}

proof fn lemma_positions_family_11(j: int)
    requires
        0 <= j < 12,
    ensures
        position_of(member_name(11, j)) == (11int, j),
{
    reveal_strlit("TdSetup");
    reveal_strlit("TdSequential");
    reveal_strlit("TdDeMarker");
    reveal_strlit("TdRei");
    reveal_strlit("TdPressure");
    reveal_strlit("TdCombo");
    reveal_strlit("TdCountdown");
    reveal_strlit("TdLines");
    reveal_strlit("TdRangeProjection");
    reveal_strlit("TdDifferential");
    reveal_strlit("TdOpen");
    reveal_strlit("TdRiskLevel");
    if j == 0 {
        assert(member_name(11, 0) == "TdSetup"@);
    } else if j == 1 {
        assert(member_name(11, 1) == "TdSequential"@);
    } else if j == 2 {
        assert(member_name(11, 2) == "TdDeMarker"@);
    } else if j == 3 {
        assert(member_name(11, 3) == "TdRei"@);
    } else if j == 4 {
        assert(member_name(11, 4) == "TdPressure"@);
    } else if j == 5 {
        assert(member_name(11, 5) == "TdCombo"@);
    } else if j == 6 {
        assert(member_name(11, 6) == "TdCountdown"@);
    } else if j == 7 {
        assert(member_name(11, 7) == "TdLines"@);
    } else if j == 8 {
        assert(member_name(11, 8) == "TdRangeProjection"@);
    } else if j == 9 {
        assert(member_name(11, 9) == "TdDifferential"@);
    } else if j == 10 {
        assert(member_name(11, 10) == "TdOpen"@);
    } else if j == 11 {
        assert(member_name(11, 11) == "TdRiskLevel"@);
    }
}

proof fn lemma_positions_family_12(j: int)
    requires
        0 <= j < 2,
    ensures
        position_of(member_name(12, j)) == (12int, j),
{
    reveal_strlit("Ichimoku");
    reveal_strlit("HeikinAshi");
    if j == 0 {
        assert(member_name(12, 0) == "Ichimoku"@);
    } else if j == 1 {
        assert(member_name(12, 1) == "HeikinAshi"@);
    }
}

proof fn lemma_positions_family_13(j: int)
    requires
        0 <= j < 15,
    ensures
        position_of(member_name(13, j)) == (13int, j),
{
    reveal_strlit("Doji");
    reveal_strlit("Hammer");
    reveal_strlit("InvertedHammer");
    reveal_strlit("HangingMan");
    reveal_strlit("ShootingStar");
    reveal_strlit("Engulfing");
    reveal_strlit("Harami");
    reveal_strlit("MorningEveningStar");
    reveal_strlit("ThreeSoldiersOrCrows");
    reveal_strlit("PiercingDarkCloud");
    reveal_strlit("Marubozu");
    reveal_strlit("Tweezer");
    reveal_strlit("SpinningTop");
    reveal_strlit("ThreeInside");
    reveal_strlit("ThreeOutside");
    if j == 0 {
        assert(member_name(13, 0) == "Doji"@);
    } else if j == 1 {
        assert(member_name(13, 1) == "Hammer"@);
    } else if j == 2 {
        assert(member_name(13, 2) == "InvertedHammer"@);
    } else if j == 3 {
        assert(member_name(13, 3) == "HangingMan"@);
    } else if j == 4 {
        assert(member_name(13, 4) == "ShootingStar"@);
    } else if j == 5 {
        assert(member_name(13, 5) == "Engulfing"@);
    } else if j == 6 {
        assert(member_name(13, 6) == "Harami"@);
    } else if j == 7 {
        assert(member_name(13, 7) == "MorningEveningStar"@);
    } else if j == 8 {
        assert(member_name(13, 8) == "ThreeSoldiersOrCrows"@);
    } else if j == 9 {
        assert(member_name(13, 9) == "PiercingDarkCloud"@);
    } else if j == 10 {
        assert(member_name(13, 10) == "Marubozu"@);
    } else if j == 11 {
        assert(member_name(13, 11) == "Tweezer"@);
    } else if j == 12 {
        assert(member_name(13, 12) == "SpinningTop"@);
    } else if j == 13 {
        assert(member_name(13, 13) == "ThreeInside"@);
    } else if j == 14 {
        assert(member_name(13, 14) == "ThreeOutside"@);
    }
}

proof fn lemma_positions_family_14(j: int)
    requires
        0 <= j < 3,
    ensures
        position_of(member_name(14, j)) == (14int, j),
{
    reveal_strlit("ValueArea");
    reveal_strlit("InitialBalance");
    reveal_strlit("OpeningRange");
    if j == 0 {
        assert(member_name(14, 0) == "ValueArea"@);
    } else if j == 1 {
        assert(member_name(14, 1) == "InitialBalance"@);
    } else if j == 2 {
        assert(member_name(14, 2) == "OpeningRange"@);
    }
}

proof fn lemma_positions_family_15(j: int)
    requires
        0 <= j < 17,
    ensures
        position_of(member_name(15, j)) == (15int, j),
{
    reveal_strlit("SharpeRatio");
    reveal_strlit("SortinoRatio");
    reveal_strlit("CalmarRatio");
    reveal_strlit("OmegaRatio");
    reveal_strlit("MaxDrawdown");
    reveal_strlit("AverageDrawdown");
    reveal_strlit("DrawdownDuration");
    reveal_strlit("PainIndex");
    reveal_strlit("ValueAtRisk");
    reveal_strlit("ConditionalValueAtRisk");
    reveal_strlit("ProfitFactor");
    reveal_strlit("GainLossRatio");
    reveal_strlit("RecoveryFactor");
    reveal_strlit("KellyCriterion");
    reveal_strlit("TreynorRatio");
    reveal_strlit("InformationRatio");
    reveal_strlit("Alpha");
    if j == 0 {
        assert(member_name(15, 0) == "SharpeRatio"@);
    } else if j == 1 {
        assert(member_name(15, 1) == "SortinoRatio"@);
    } else if j == 2 {
        assert(member_name(15, 2) == "CalmarRatio"@);
    } else if j == 3 {
        assert(member_name(15, 3) == "OmegaRatio"@);
    } else if j == 4 {
        assert(member_name(15, 4) == "MaxDrawdown"@);
    } else if j == 5 {
        assert(member_name(15, 5) == "AverageDrawdown"@);
    } else if j == 6 {
        assert(member_name(15, 6) == "DrawdownDuration"@);
    } else if j == 7 {
        assert(member_name(15, 7) == "PainIndex"@);
    } else if j == 8 {
        assert(member_name(15, 8) == "ValueAtRisk"@);
    } else if j == 9 {
        assert(member_name(15, 9) == "ConditionalValueAtRisk"@);
    } else if j == 10 {
        assert(member_name(15, 10) == "ProfitFactor"@);
    } else if j == 11 {
        assert(member_name(15, 11) == "GainLossRatio"@);
    } else if j == 12 {
        assert(member_name(15, 12) == "RecoveryFactor"@);
    } else if j == 13 {
        assert(member_name(15, 13) == "KellyCriterion"@);
    } else if j == 14 {
        assert(member_name(15, 14) == "TreynorRatio"@);
    } else if j == 15 {
        assert(member_name(15, 15) == "InformationRatio"@);
    } else if j == 16 {
        assert(member_name(15, 16) == "Alpha"@);
    }
}

/// Every catalogue position is recovered from the name stored there.
proof fn lemma_position_of_member(i: int, j: int)
    requires
        is_position(i, j),
    ensures
        position_of(member_name(i, j)) == (i, j),
{
    if i == 0 {
        lemma_positions_family_0(j);
    } else if i == 1 {
        lemma_positions_family_1(j);
    } else if i == 2 {
        lemma_positions_family_2(j);
    } else if i == 3 {
        lemma_positions_family_3(j);
    } else if i == 4 {
        lemma_positions_family_4(j);
    } else if i == 5 {
        lemma_positions_family_5(j);
    } else if i == 6 {
        lemma_positions_family_6(j);
    } else if i == 7 {
        lemma_positions_family_7(j);
    } else if i == 8 {
        lemma_positions_family_8(j);
    } else if i == 9 {
        lemma_positions_family_9(j);
    } else if i == 10 {
        lemma_positions_family_10(j);
    } else if i == 11 {
        lemma_positions_family_11(j);
    } else if i == 12 {
        lemma_positions_family_12(j);
    } else if i == 13 {
        lemma_positions_family_13(j);
    } else if i == 14 {
        lemma_positions_family_14(j);
    } else if i == 15 {
        lemma_positions_family_15(j);
    }
}

/// Each indicator appears in exactly one family, once: two different positions
/// of the catalogue hold different names.
pub proof fn lemma_each_indicator_listed_once(i1: int, j1: int, i2: int, j2: int)
    requires
        is_position(i1, j1),
        is_position(i2, j2),
        (i1, j1) != (i2, j2),
    ensures
        member_name(i1, j1) != member_name(i2, j2),
{
    lemma_position_of_member(i1, j1);
    lemma_position_of_member(i2, j2);
}

} // verus!
