//! Swing-pivot chart patterns: Double Top / Bottom, Cup-and-Handle, Cypher and
//! Three Drives.
//!
//! Each detector reads the most recent confirmed swing pivots. Pivot prices are
//! floating-point, so the comparisons between them (levels that match within a
//! tolerance, Fibonacci ratio windows, which side of a level a pivot sits on)
//! are taken by the caller and passed in as a *shape*: the booleans that the
//! detection rule depends on. This module holds the rule itself, the condition
//! under which it is evaluated (a bar that confirms a new pivot, once enough
//! pivots exist), and the emitted/ready state. Every detector emits `+1` (bullish), `-1`
//! (bearish) or `0` on every bar; none of them ever withholds a value.
use vstd::prelude::*;

verus! {

/// What one bar contributes to a pivot-pattern detector.
#[derive(Debug, Clone, Copy)]
pub struct PivotBar<S> {
    /// Whether this bar confirmed a new swing pivot.
    pub pivot_confirmed: bool,
    /// Number of confirmed pivots held after this bar (the swing tracker keeps
    /// at most as many as the detector needs).
    pub pivot_count: usize,
    /// Comparisons among the most recent pivots (meaningful only on bars where the
    /// pattern is evaluated).
    pub shape: S,
}

/// A pattern is evaluated only on a bar that confirms a new pivot, and only
/// once `needed` pivots exist.
pub open spec fn evaluated_on<S>(bar: PivotBar<S>, needed: int) -> bool {
    bar.pivot_confirmed && bar.pivot_count >= needed
}

/// A signal value: bullish `+1`, bearish `-1`, or none `0`.
pub open spec fn is_signal(x: i8) -> bool {
    x == 1 || x == -1 || x == 0
}

// ---------------------------------------------------------------------------
// Double Top / Double Bottom
// ---------------------------------------------------------------------------

/// Comparison of the last three pivots `first, middle, last` for a double
/// top / bottom.
#[derive(Debug, Clone, Copy)]
pub struct DoubleTopBottomShape {
    /// `first` and `last` sit at the same level (within the level tolerance).
    pub levels_match: bool,
    /// `last` is a swing high (its direction is positive).
    pub last_is_high: bool,
}

/// Double Top / Bottom rule: twin highs are a bearish double top (`-1`), twin
/// lows a bullish double bottom (`+1`).
pub open spec fn double_top_bottom_signal(bar: PivotBar<DoubleTopBottomShape>) -> int {
    if !evaluated_on(bar, 3) {
        0
    } else if bar.shape.levels_match {
        if bar.shape.last_is_high { -1 } else { 1 }
    } else {
        0
    }
}

/// A double bottom (`+1`) is reported exactly on a bar that confirms the third
/// pivot or later when the first and last pivots sit at the same level and the
/// last one is a low; a double top (`-1`) exactly when they match and the last
/// one is a high. Unequal levels never signal.
/// On a bar that confirms no new pivot, or before 3 pivots exist, the signal
/// is `0`.
pub proof fn lemma_double_top_bottom_signal_cases(bar: PivotBar<DoubleTopBottomShape>)
    ensures
        double_top_bottom_signal(bar) == 1 <==> (bar.pivot_confirmed && bar.pivot_count >= 3 && bar.shape.levels_match && !bar.shape.last_is_high),
        double_top_bottom_signal(bar) == -1 <==> (bar.pivot_confirmed && bar.pivot_count >= 3 && bar.shape.levels_match && bar.shape.last_is_high),
        double_top_bottom_signal(bar) == 0 || double_top_bottom_signal(bar) == 1 || double_top_bottom_signal(bar) == -1,
        !(bar.pivot_confirmed && bar.pivot_count >= 3) ==> double_top_bottom_signal(bar) == 0,
{
}

/// Double Top / Double Bottom — a two-peak (or two-trough) reversal pattern read
/// from the last three confirmed swing pivots.
#[derive(Debug, Clone, Copy)]
pub struct DoubleTopBottom {
    has_emitted: bool,
}

impl DoubleTopBottom {
    /// Whether the detector has produced at least one value.
    pub closed spec fn spec_ready(self) -> bool {
        self.has_emitted
    }

    /// Construct a new Double Top / Double Bottom detector.
    pub fn new() -> (r: DoubleTopBottom)
        ensures
            !r.spec_ready(),
    {
        DoubleTopBottom { has_emitted: false }
    }

    /// Process one bar and return the signal.
    pub fn update(&mut self, bar: PivotBar<DoubleTopBottomShape>) -> (signal: i8)
        ensures
            final(self).spec_ready(),
            signal == double_top_bottom_signal(bar),
            is_signal(signal),
            signal == 1 <==> (bar.pivot_confirmed && bar.pivot_count >= 3 && bar.shape.levels_match && !bar.shape.last_is_high),
            signal == -1 <==> (bar.pivot_confirmed && bar.pivot_count >= 3 && bar.shape.levels_match && bar.shape.last_is_high),
            !bar.pivot_confirmed ==> signal == 0,
    {
        self.has_emitted = true;
        if !bar.pivot_confirmed {
            return 0;
        }
        if bar.pivot_count < 3 {
            return 0;
        }
        if bar.shape.levels_match {
            return if bar.shape.last_is_high { -1 } else { 1 };
        }
        0
    }

    /// Process bars in order; the same signals as calling `update` on each.
    pub fn batch(&mut self, bars: &Vec<PivotBar<DoubleTopBottomShape>>) -> (out: Vec<i8>)
        ensures
            out.len() == bars.len(),
            forall|i: int| 0 <= i < bars.len() ==> out[i] == double_top_bottom_signal(#[trigger] bars[i]),
            final(self).spec_ready() == (old(self).spec_ready() || bars.len() > 0),
    {
        let mut out: Vec<i8> = Vec::new();
        let mut i: usize = 0;
        while i < bars.len()
            invariant
                i <= bars.len(),
                out.len() == i,
                forall|j: int| 0 <= j < i ==> out[j] == double_top_bottom_signal(#[trigger] bars[j]),
                self.spec_ready() == (old(self).spec_ready() || i > 0),
            decreases bars.len() - i,
        {
            let s = self.update(bars[i]);
            out.push(s);
            i = i + 1;
        }
        out
    }

    /// Clear the state, as if freshly constructed.
    pub fn reset(&mut self)
        ensures
            !final(self).spec_ready(),
    {
        self.has_emitted = false;
    }

    /// Bars needed before the first complete pattern can be confirmed.
    pub fn warmup_period(&self) -> (r: usize)
        ensures
            r == 5,
    {
        5
    }

    /// Whether at least one bar has been processed since construction or reset.
    pub fn is_ready(&self) -> (r: bool)
        ensures
            r == self.spec_ready(),
    {
        self.has_emitted
    }

    /// Display name.
    pub fn name(&self) -> (r: &'static str)
        ensures
            r@ == "DoubleTopBottom"@,
    {
        "DoubleTopBottom"
    }
}

impl Default for DoubleTopBottom {
    fn default() -> (r: DoubleTopBottom)
        ensures
            !r.spec_ready(),
    {
        DoubleTopBottom::new()
    }
}

// ---------------------------------------------------------------------------
// Cup-and-Handle
// ---------------------------------------------------------------------------

/// Comparison of the last four pivots `rim_left, extreme, rim_right, handle`.
#[derive(Debug, Clone, Copy)]
pub struct CupAndHandleShape {
    /// The handle is a swing low (its direction is negative).
    pub handle_is_low: bool,
    /// The two rims sit at the same level (within the level tolerance).
    pub rims_match: bool,
    /// `handle > extreme`.
    pub handle_above_extreme: bool,
    /// `handle < extreme`.
    pub handle_below_extreme: bool,
    /// `handle > rim_right`.
    pub handle_above_rim: bool,
    /// `handle < rim_right`.
    pub handle_below_rim: bool,
}

/// Cup-and-Handle rule. A low handle above the cup and below the right rim is a
/// bullish cup-and-handle (`+1`); otherwise a high handle below the cap and
/// above the right rim is the bearish inverse (`-1`); both need matching rims.
pub open spec fn cup_and_handle_signal(bar: PivotBar<CupAndHandleShape>) -> int {
    let s = bar.shape;
    if !evaluated_on(bar, 4) {
        0
    } else if s.handle_is_low {
        if s.rims_match && s.handle_above_extreme && s.handle_below_rim { 1 } else { 0 }
    } else if s.rims_match && s.handle_below_extreme && s.handle_above_rim {
        -1
    } else {
        0
    }
}

/// A bullish cup-and-handle (`+1`) needs matching rims, a low handle above the
/// cup and below the right rim; the bearish inverse (`-1`) needs matching rims,
/// a high handle below the cap and above the right rim. Mismatched rims never
/// signal, on either side.
/// On a bar that confirms no new pivot, or before 4 pivots exist, the signal
/// is `0`.
pub proof fn lemma_cup_and_handle_signal_cases(bar: PivotBar<CupAndHandleShape>)
    ensures
        cup_and_handle_signal(bar) == 1 <==> (bar.pivot_confirmed && bar.pivot_count >= 4 && bar.shape.handle_is_low && bar.shape.rims_match && bar.shape.handle_above_extreme && bar.shape.handle_below_rim),
        cup_and_handle_signal(bar) == -1 <==> (bar.pivot_confirmed && bar.pivot_count >= 4 && !bar.shape.handle_is_low && bar.shape.rims_match && bar.shape.handle_below_extreme && bar.shape.handle_above_rim),
        cup_and_handle_signal(bar) == 0 || cup_and_handle_signal(bar) == 1 || cup_and_handle_signal(bar) == -1,
        !(bar.pivot_confirmed && bar.pivot_count >= 4) ==> cup_and_handle_signal(bar) == 0,
{
}

/// Cup-and-Handle / Inverse — a rounded base followed by a shallow pullback near
/// the rim, read from the last four confirmed swing pivots.
#[derive(Debug, Clone, Copy)]
pub struct CupAndHandle {
    has_emitted: bool,
}

impl CupAndHandle {
    /// Whether the detector has produced at least one value.
    pub closed spec fn spec_ready(self) -> bool {
        self.has_emitted
    }

    /// Construct a new Cup-and-Handle detector.
    pub fn new() -> (r: CupAndHandle)
        ensures
            !r.spec_ready(),
    {
        CupAndHandle { has_emitted: false }
    }

    /// Process one bar and return the signal.
    pub fn update(&mut self, bar: PivotBar<CupAndHandleShape>) -> (signal: i8)
        ensures
            final(self).spec_ready(),
            signal == cup_and_handle_signal(bar),
            is_signal(signal),
            signal == 1 <==> (bar.pivot_confirmed && bar.pivot_count >= 4 && bar.shape.handle_is_low && bar.shape.rims_match && bar.shape.handle_above_extreme && bar.shape.handle_below_rim),
            signal == -1 <==> (bar.pivot_confirmed && bar.pivot_count >= 4 && !bar.shape.handle_is_low && bar.shape.rims_match && bar.shape.handle_below_extreme && bar.shape.handle_above_rim),
            !bar.pivot_confirmed ==> signal == 0,
    {
        self.has_emitted = true;
        if !bar.pivot_confirmed {
            return 0;
        }
        if bar.pivot_count < 4 {
            return 0;
        }
        let s = bar.shape;
        if s.handle_is_low {
            if s.rims_match && s.handle_above_extreme && s.handle_below_rim {
                return 1;
            }
        } else if s.rims_match && s.handle_below_extreme && s.handle_above_rim {
            return -1;
        }
        0
    }

    /// Process bars in order; the same signals as calling `update` on each.
    pub fn batch(&mut self, bars: &Vec<PivotBar<CupAndHandleShape>>) -> (out: Vec<i8>)
        ensures
            out.len() == bars.len(),
            forall|i: int| 0 <= i < bars.len() ==> out[i] == cup_and_handle_signal(#[trigger] bars[i]),
            final(self).spec_ready() == (old(self).spec_ready() || bars.len() > 0),
    {
        let mut out: Vec<i8> = Vec::new();
        let mut i: usize = 0;
        while i < bars.len()
            invariant
                i <= bars.len(),
                out.len() == i,
                forall|j: int| 0 <= j < i ==> out[j] == cup_and_handle_signal(#[trigger] bars[j]),
                self.spec_ready() == (old(self).spec_ready() || i > 0),
            decreases bars.len() - i,
        {
            let s = self.update(bars[i]);
            out.push(s);
            i = i + 1;
        }
        out
    }

    /// Clear the state, as if freshly constructed.
    pub fn reset(&mut self)
        ensures
            !final(self).spec_ready(),
    {
        self.has_emitted = false;
    }

    /// Bars needed before the first complete pattern can be confirmed.
    pub fn warmup_period(&self) -> (r: usize)
        ensures
            r == 5,
    {
        5
    }

    /// Whether at least one bar has been processed since construction or reset.
    pub fn is_ready(&self) -> (r: bool)
        ensures
            r == self.spec_ready(),
    {
        self.has_emitted
    }

    /// Display name.
    pub fn name(&self) -> (r: &'static str)
        ensures
            r@ == "CupAndHandle"@,
    {
        "CupAndHandle"
    }
}

impl Default for CupAndHandle {
    fn default() -> (r: CupAndHandle)
        ensures
            !r.spec_ready(),
    {
        CupAndHandle::new()
    }
}

// ---------------------------------------------------------------------------
// Cypher
// ---------------------------------------------------------------------------

/// The X-A-B-C-D leg ratios of the Cypher harmonic pattern.
#[derive(Debug, Clone, Copy)]
pub struct CypherShape {
    /// `AB / XA`, `BC / XA` and `CD / XC` all lie in their Cypher windows.
    pub ratios_match: bool,
    /// The terminal point D is a swing low.
    pub bullish: bool,
}

/// Cypher rule: matching ratios signal in the direction of D.
pub open spec fn cypher_signal(bar: PivotBar<CypherShape>) -> int {
    if !evaluated_on(bar, 5) {
        0
    } else if bar.shape.ratios_match {
        if bar.shape.bullish { 1 } else { -1 }
    } else {
        0
    }
}

/// A Cypher signal needs all three leg ratios in their windows, and points the
/// way of D (`+1` for a low D, `-1` for a high D).
/// On a bar that confirms no new pivot, or before 5 pivots exist, the signal
/// is `0`.
pub proof fn lemma_cypher_signal_cases(bar: PivotBar<CypherShape>)
    ensures
        cypher_signal(bar) == 1 <==> (bar.pivot_confirmed && bar.pivot_count >= 5 && bar.shape.ratios_match && bar.shape.bullish),
        cypher_signal(bar) == -1 <==> (bar.pivot_confirmed && bar.pivot_count >= 5 && bar.shape.ratios_match && !bar.shape.bullish),
        cypher_signal(bar) == 0 || cypher_signal(bar) == 1 || cypher_signal(bar) == -1,
        !(bar.pivot_confirmed && bar.pivot_count >= 5) ==> cypher_signal(bar) == 0,
{
}

/// Cypher — a 5-point harmonic pattern read from the last five swing pivots.
#[derive(Debug, Clone, Copy)]
pub struct Cypher {
    has_emitted: bool,
}

impl Cypher {
    /// Whether the detector has produced at least one value.
    pub closed spec fn spec_ready(self) -> bool {
        self.has_emitted
    }

    /// Construct a new Cypher detector.
    pub fn new() -> (r: Cypher)
        ensures
            !r.spec_ready(),
    {
        Cypher { has_emitted: false }
    }

    /// Process one bar and return the signal.
    pub fn update(&mut self, bar: PivotBar<CypherShape>) -> (signal: i8)
        ensures
            final(self).spec_ready(),
            signal == cypher_signal(bar),
            is_signal(signal),
            signal == 1 <==> (bar.pivot_confirmed && bar.pivot_count >= 5 && bar.shape.ratios_match && bar.shape.bullish),
            signal == -1 <==> (bar.pivot_confirmed && bar.pivot_count >= 5 && bar.shape.ratios_match && !bar.shape.bullish),
            !bar.pivot_confirmed ==> signal == 0,
    {
        self.has_emitted = true;
        if !bar.pivot_confirmed {
            return 0;
        }
        if bar.pivot_count < 5 {
            return 0;
        }
        if bar.shape.ratios_match {
            return if bar.shape.bullish { 1 } else { -1 };
        }
        0
    }

    /// Process bars in order; the same signals as calling `update` on each.
    pub fn batch(&mut self, bars: &Vec<PivotBar<CypherShape>>) -> (out: Vec<i8>)
        ensures
            out.len() == bars.len(),
            forall|i: int| 0 <= i < bars.len() ==> out[i] == cypher_signal(#[trigger] bars[i]),
            final(self).spec_ready() == (old(self).spec_ready() || bars.len() > 0),
    {
        let mut out: Vec<i8> = Vec::new();
        let mut i: usize = 0;
        while i < bars.len()
            invariant
                i <= bars.len(),
                out.len() == i,
                forall|j: int| 0 <= j < i ==> out[j] == cypher_signal(#[trigger] bars[j]),
                self.spec_ready() == (old(self).spec_ready() || i > 0),
            decreases bars.len() - i,
        {
            let s = self.update(bars[i]);
            out.push(s);
            i = i + 1;
        }
        out
    }

    /// Clear the state, as if freshly constructed.
    pub fn reset(&mut self)
        ensures
            !final(self).spec_ready(),
    {
        self.has_emitted = false;
    }

    /// Bars needed before the first complete pattern can be confirmed.
    pub fn warmup_period(&self) -> (r: usize)
        ensures
            r == 6,
    {
        6
    }

    /// Whether at least one bar has been processed since construction or reset.
    pub fn is_ready(&self) -> (r: bool)
        ensures
            r == self.spec_ready(),
    {
        self.has_emitted
    }

    /// Display name.
    pub fn name(&self) -> (r: &'static str)
        ensures
            r@ == "Cypher"@,
    {
        "Cypher"
    }
}

impl Default for Cypher {
    fn default() -> (r: Cypher)
        ensures
            !r.spec_ready(),
    {
        Cypher::new()
    }
}

// ---------------------------------------------------------------------------
// Three Drives
// ---------------------------------------------------------------------------

/// The X-A-B-C-D legs of the Three Drives pattern.
#[derive(Debug, Clone, Copy)]
pub struct ThreeDrivesShape {
    /// `AB / XA` and `CD / BC` both lie in `[1.13, 1.75]`.
    pub extensions: bool,
    /// `AB ~ CD` (within 20%) and `XA ~ BC` (within 30%).
    pub symmetric: bool,
    /// The terminal point D is a swing low.
    pub bullish: bool,
}

/// Three Drives rule: extended and symmetric drives signal in the direction of D.
pub open spec fn three_drives_signal(bar: PivotBar<ThreeDrivesShape>) -> int {
    if !evaluated_on(bar, 5) {
        0
    } else if bar.shape.extensions && bar.shape.symmetric {
        if bar.shape.bullish { 1 } else { -1 }
    } else {
        0
    }
}

/// A Three Drives signal needs both the leg extensions and the symmetry of the
/// drives, in either direction (`+1` for falling drives ending on a low, `-1`
/// for rising drives).
/// On a bar that confirms no new pivot, or before 5 pivots exist, the signal
/// is `0`.
pub proof fn lemma_three_drives_signal_cases(bar: PivotBar<ThreeDrivesShape>)
    ensures
        three_drives_signal(bar) == 1 <==> (bar.pivot_confirmed && bar.pivot_count >= 5 && bar.shape.extensions && bar.shape.symmetric && bar.shape.bullish),
        three_drives_signal(bar) == -1 <==> (bar.pivot_confirmed && bar.pivot_count >= 5 && bar.shape.extensions && bar.shape.symmetric && !bar.shape.bullish),
        three_drives_signal(bar) == 0 || three_drives_signal(bar) == 1 || three_drives_signal(bar) == -1,
        !(bar.pivot_confirmed && bar.pivot_count >= 5) ==> three_drives_signal(bar) == 0,
{
}

/// Three Drives — a symmetric harmonic pattern read from the last five pivots.
#[derive(Debug, Clone, Copy)]
pub struct ThreeDrives {
    has_emitted: bool,
}

impl ThreeDrives {
    /// Whether the detector has produced at least one value.
    pub closed spec fn spec_ready(self) -> bool {
        self.has_emitted
    }

    /// Construct a new Three Drives detector.
    pub fn new() -> (r: ThreeDrives)
        ensures
            !r.spec_ready(),
    {
        ThreeDrives { has_emitted: false }
    }

    /// Process one bar and return the signal.
    pub fn update(&mut self, bar: PivotBar<ThreeDrivesShape>) -> (signal: i8)
        ensures
            final(self).spec_ready(),
            signal == three_drives_signal(bar),
            is_signal(signal),
            signal == 1 <==> (bar.pivot_confirmed && bar.pivot_count >= 5 && bar.shape.extensions && bar.shape.symmetric && bar.shape.bullish),
            signal == -1 <==> (bar.pivot_confirmed && bar.pivot_count >= 5 && bar.shape.extensions && bar.shape.symmetric && !bar.shape.bullish),
            !bar.pivot_confirmed ==> signal == 0,
    {
        self.has_emitted = true;
        if !bar.pivot_confirmed {
            return 0;
        }
        if bar.pivot_count < 5 {
            return 0;
        }
        if bar.shape.extensions && bar.shape.symmetric {
            return if bar.shape.bullish { 1 } else { -1 };
        }
        0
    }

    /// Process bars in order; the same signals as calling `update` on each.
    pub fn batch(&mut self, bars: &Vec<PivotBar<ThreeDrivesShape>>) -> (out: Vec<i8>)
        ensures
            out.len() == bars.len(),
            forall|i: int| 0 <= i < bars.len() ==> out[i] == three_drives_signal(#[trigger] bars[i]),
            final(self).spec_ready() == (old(self).spec_ready() || bars.len() > 0),
    {
        let mut out: Vec<i8> = Vec::new();
        let mut i: usize = 0;
        while i < bars.len()
            invariant
                i <= bars.len(),
                out.len() == i,
                forall|j: int| 0 <= j < i ==> out[j] == three_drives_signal(#[trigger] bars[j]),
                self.spec_ready() == (old(self).spec_ready() || i > 0),
            decreases bars.len() - i,
        {
            let s = self.update(bars[i]);
            out.push(s);
            i = i + 1;
        }
        out
    }

    /// Clear the state, as if freshly constructed.
    pub fn reset(&mut self)
        ensures
            !final(self).spec_ready(),
    {
        self.has_emitted = false;
    }

    /// Bars needed before the first complete pattern can be confirmed.
    pub fn warmup_period(&self) -> (r: usize)
        ensures
            r == 6,
    {
        6
    }

    /// Whether at least one bar has been processed since construction or reset.
    pub fn is_ready(&self) -> (r: bool)
        ensures
            r == self.spec_ready(),
    {
        self.has_emitted
    }

    /// Display name.
    pub fn name(&self) -> (r: &'static str)
        ensures
            r@ == "ThreeDrives"@,
    {
        "ThreeDrives"
    }
}

impl Default for ThreeDrives {
    fn default() -> (r: ThreeDrives)
        ensures
            !r.spec_ready(),
    {
        ThreeDrives::new()
    }
}

} // verus!
