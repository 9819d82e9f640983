use wickra_core::patterns::{
    CupAndHandle, CupAndHandleShape, Cypher, CypherShape, DoubleTopBottom, DoubleTopBottomShape,
    PivotBar, ThreeDrives, ThreeDrivesShape,
};

fn bar<S>(pivot_confirmed: bool, pivot_count: usize, shape: S) -> PivotBar<S> {
    PivotBar { pivot_confirmed, pivot_count, shape }
}

fn dtb(levels_match: bool, last_is_high: bool) -> DoubleTopBottomShape {
    DoubleTopBottomShape { levels_match, last_is_high }
}

fn cup(
    handle_is_low: bool,
    rims_match: bool,
    handle_above_extreme: bool,
    handle_below_extreme: bool,
    handle_above_rim: bool,
    handle_below_rim: bool,
) -> CupAndHandleShape {
    CupAndHandleShape {
        handle_is_low,
        rims_match,
        handle_above_extreme,
        handle_below_extreme,
        handle_above_rim,
        handle_below_rim,
    }
}

#[test]
fn cup_and_handle_accessors_and_metadata() {
    let indicator = CupAndHandle::new();
    assert_eq!(indicator.name(), "CupAndHandle");
    assert_eq!(indicator.warmup_period(), 5);
    assert!(!indicator.is_ready());
    assert!(!CupAndHandle::default().is_ready());
}

#[test]
fn cypher_accessors_and_metadata() {
    let indicator = Cypher::new();
    assert_eq!(indicator.name(), "Cypher");
    assert_eq!(indicator.warmup_period(), 6);
    assert!(!indicator.is_ready());
    assert!(!Cypher::default().is_ready());
}

#[test]
fn double_top_bottom_accessors_and_metadata() {
    let indicator = DoubleTopBottom::new();
    assert_eq!(indicator.name(), "DoubleTopBottom");
    assert_eq!(indicator.warmup_period(), 5);
    assert!(!indicator.is_ready());
    assert!(!DoubleTopBottom::default().is_ready());
}

#[test]
fn three_drives_accessors_and_metadata() {
    let indicator = ThreeDrives::new();
    assert_eq!(indicator.name(), "ThreeDrives");
    assert_eq!(indicator.warmup_period(), 6);
    assert!(!indicator.is_ready());
    assert!(!ThreeDrives::default().is_ready());
}

#[test]
fn double_top_shape_is_minus_one() {
    // Twin highs 120 / 120 around a 100 trough, confirmed on the third pivot.
    let mut d = DoubleTopBottom::new();
    assert_eq!(d.update(bar(true, 3, dtb(true, true))), -1);
    assert!(d.is_ready());
}

#[test]
fn double_bottom_shape_is_plus_one() {
    let mut d = DoubleTopBottom::new();
    assert_eq!(d.update(bar(true, 3, dtb(true, false))), 1);
}

#[test]
fn double_unequal_levels_do_not_trigger() {
    let mut d = DoubleTopBottom::new();
    assert_eq!(d.update(bar(true, 3, dtb(false, true))), 0);
}

#[test]
fn double_needs_three_pivots_and_a_confirmation() {
    let mut d = DoubleTopBottom::new();
    // Matching shape, but only two pivots exist yet.
    assert_eq!(d.update(bar(true, 2, dtb(true, true))), 0);
    // Enough pivots, but this bar did not confirm a new one.
    assert_eq!(d.update(bar(false, 3, dtb(true, true))), 0);
}

#[test]
fn cup_and_handle_shape_is_plus_one() {
    // Rims 120/121 match, cup 90, handle 110 above the cup and below the rim.
    let mut c = CupAndHandle::new();
    assert_eq!(c.update(bar(true, 4, cup(true, true, true, false, false, true))), 1);
}

#[test]
fn inverse_cup_and_handle_shape_is_minus_one() {
    // Rims 100/101, cap 130, handle 110 below the cap and above the rim.
    let mut c = CupAndHandle::new();
    assert_eq!(c.update(bar(true, 4, cup(false, true, false, true, true, false))), -1);
}

#[test]
fn deep_handle_shape_is_not_cup_and_handle() {
    // Handle 85 below the cup low 90: a double bottom, not a cup.
    let mut c = CupAndHandle::new();
    assert_eq!(c.update(bar(true, 4, cup(true, true, false, true, false, true))), 0);
}

#[test]
fn inverse_with_mismatched_rims_shape_does_not_trigger() {
    let mut c = CupAndHandle::new();
    assert_eq!(c.update(bar(true, 5, cup(false, false, false, true, true, false))), 0);
}

#[test]
fn cup_needs_four_pivots() {
    let mut c = CupAndHandle::new();
    assert_eq!(c.update(bar(true, 3, cup(true, true, true, false, false, true))), 0);
}

#[test]
fn cypher_shapes() {
    let mut c = Cypher::new();
    assert_eq!(c.update(bar(true, 5, CypherShape { ratios_match: true, bullish: true })), 1);
    assert_eq!(c.update(bar(true, 5, CypherShape { ratios_match: true, bullish: false })), -1);
    assert_eq!(c.update(bar(true, 5, CypherShape { ratios_match: false, bullish: true })), 0);
    assert_eq!(c.update(bar(true, 4, CypherShape { ratios_match: true, bullish: true })), 0);
}

#[test]
fn three_drives_shapes() {
    let mut t = ThreeDrives::new();
    let s = |extensions, symmetric, bullish| ThreeDrivesShape { extensions, symmetric, bullish };
    assert_eq!(t.update(bar(true, 5, s(true, true, false))), -1);
    assert_eq!(t.update(bar(true, 5, s(true, true, true))), 1);
    // Asymmetric drives do not trigger.
    assert_eq!(t.update(bar(true, 5, s(true, false, true))), 0);
    assert_eq!(t.update(bar(true, 5, s(false, true, true))), 0);
    assert_eq!(t.update(bar(false, 5, s(true, true, true))), 0);
}

#[test]
fn pattern_reset_clears_state() {
    let mut d = DoubleTopBottom::new();
    d.update(bar(true, 3, dtb(true, true)));
    d.reset();
    assert!(!d.is_ready());
    assert_eq!(d.update(bar(false, 0, dtb(false, false))), 0);
    assert!(d.is_ready());

    let mut c = CupAndHandle::new();
    c.update(bar(false, 1, cup(true, true, true, false, false, true)));
    c.reset();
    assert!(!c.is_ready());

    let mut y = Cypher::new();
    y.update(bar(false, 1, CypherShape { ratios_match: false, bullish: false }));
    y.reset();
    assert!(!y.is_ready());

    let mut t = ThreeDrives::new();
    t.update(bar(false, 1, ThreeDrivesShape { extensions: false, symmetric: false, bullish: false }));
    t.reset();
    assert!(!t.is_ready());
}

#[test]
fn pattern_batch_equals_streaming() {
    let bars = vec![
        bar(false, 0, dtb(false, false)),
        bar(true, 1, dtb(false, true)),
        bar(true, 2, dtb(true, false)),
        bar(true, 3, dtb(true, true)),
        bar(true, 3, dtb(true, false)),
        bar(true, 3, dtb(false, false)),
    ];
    let mut a = DoubleTopBottom::new();
    let mut b = DoubleTopBottom::new();
    let streamed: Vec<i8> = bars.iter().map(|x| b.update(*x)).collect();
    assert_eq!(a.batch(&bars), streamed);
    assert_eq!(streamed, vec![0, 0, 0, -1, 1, 0]);
    assert!(a.is_ready());
    let mut empty = DoubleTopBottom::new();
    assert!(empty.batch(&Vec::new()).is_empty());
    assert!(!empty.is_ready());
}
