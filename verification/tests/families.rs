use wickra_core::families::families;

#[test]
fn no_duplicates_across_families() {
    let mut names: Vec<&str> = families()
        .iter()
        .flat_map(|(_, ns)| ns.iter().copied())
        .collect();
    let len_before = names.len();
    names.sort_unstable();
    names.dedup();
    assert_eq!(names.len(), len_before, "duplicate indicator across families");
}

#[test]
fn total_count_matches_expected() {
    let total: usize = families().iter().map(|(_, ns)| ns.len()).sum();
    assert_eq!(total, 214, "FAMILIES total drifted from indicator count");
}

#[test]
fn families_are_in_catalogue_order() {
    let f = families();
    assert_eq!(f.len(), 16);
    assert_eq!(f[0].0, "Moving Averages");
    assert_eq!(f[0].1[0], "Sma");
    assert!(f[0].1.contains(&"Hma"));
    assert_eq!(f[15].0, "Risk / Performance");
}

#[test]
fn families_hold_each_family_in_full() {
    let f = families();
    assert_eq!(f[1].0, "Momentum Oscillators");
    assert_eq!(f[1].1[0], "Rsi");
    assert_eq!(f[0].1[1], "Ema");
    assert_eq!(f[12].1, vec!["Ichimoku", "HeikinAshi"]);
    assert_eq!(f[14].1, vec!["ValueArea", "InitialBalance", "OpeningRange"]);
}
