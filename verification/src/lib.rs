//! Verified core of the wickra technical-analysis library.
//!
//! Indicator arithmetic runs on floating-point prices; this crate holds the
//! parts of the indicators that decide rather than compute: period validation
//! and warmup lengths, the Hull moving average stage lengths, the pivot-pattern
//! detection rules, the rolling-window discipline, the running-sum
//! recomputation schedule, calendar bucketing, and the family catalogue.
pub mod calendar;
pub mod error;
pub mod families;
pub mod hma;
pub mod patterns;
pub mod periods;
pub mod schedule;
pub mod window;

pub use calendar::weekday;
pub use error::{Error, Result};
pub use families::families;
pub use hma::Hma;
pub use patterns::{
    CupAndHandle, CupAndHandleShape, Cypher, CypherShape, DoubleTopBottom, DoubleTopBottomShape,
    PivotBar, ThreeDrives, ThreeDrivesShape,
};
pub use periods::{AoHistogramPeriods, KeltnerPeriods, KstPeriods, MacdPeriods};
pub use schedule::RecomputeSchedule;
pub use window::RollingWindow;
