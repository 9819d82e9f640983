# wickra_core

Technical-analysis indicators split into a verified core and floating-point
engines.

- `src/` (verified with Verus): the error type; period validation and warmup
  lengths (`periods`); the Hull moving average stage lengths, with an exact
  integer `round(sqrt(n))`, and the readiness of its three-stage cascade
  (`hma`); the swing-pivot pattern rules for Double Top/Bottom,
  Cup-and-Handle, Cypher and Three Drives (`patterns`); the bounded rolling
  window behind windowed indicators (`window`); the running-sum recomputation
  schedule (`schedule`); local-weekday bucketing of epoch-millisecond
  timestamps (`calendar`); and the indicator family catalogue, with each
  indicator listed once (`families`).
- `app/`: the `f64` indicator engines, the `Indicator` / `BatchExt` traits, the
  `Candle` bar, and the error type with its `Display` messages (via
  `thiserror`). Engines: SMA, EMA, RSI, MACD, standard deviation, median MA,
  Bollinger Bands / Bandwidth / %B, ATR, Keltner Channels, historical
  volatility, linear regression / slope / standard error / detrended standard
  deviation, Granger causality, pair-spread z-score, OU half-life, AR(1) spread
  coefficient, average drawdown, Omega ratio, A/D oscillator, intraday
  intensity, MFI, Doji, Parabolic SAR, day-of-week profile, the cross-section
  tick, and `Indicator` impls for the four pattern detectors. Each engine calls
  the verified rules for everything that is not floating-point arithmetic.
- Not provided as engines: the HMA averages, KST, Awesome Oscillator Histogram,
  funding-rate mean and Kyle's lambda (they build on weighted moving averages,
  rate of change, the Awesome Oscillator, derivatives ticks and trade quotes,
  none of which is part of this code base), and the swing-pivot tracker that
  feeds the pattern detectors (callers supply the pivot comparisons). Their
  integer rules are in `src/`.
- `tests/`: executable tests of the verified core.
