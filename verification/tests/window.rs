use wickra_core::window::RollingWindow;

fn contents(w: &RollingWindow<i32>) -> Vec<i32> {
    (0..w.len()).map(|i| *w.get(i)).collect()
}

#[test]
fn window_fills_then_rolls() {
    let mut w = RollingWindow::new(3);
    assert!(w.is_empty());
    assert_eq!(w.capacity(), 3);
    assert_eq!(w.push(1), None);
    assert_eq!(w.push(2), None);
    assert!(!w.is_full());
    assert_eq!(w.push(3), None);
    assert!(w.is_full());
    assert_eq!(w.push(4), Some(1));
    assert_eq!(w.push(5), Some(2));
    assert_eq!(contents(&w), vec![3, 4, 5]);
    assert_eq!(w.len(), 3);
}

#[test]
fn window_of_one_passes_through() {
    let mut w = RollingWindow::new(1);
    assert_eq!(w.push(5), None);
    assert_eq!(w.push(10), Some(5));
    assert_eq!(contents(&w), vec![10]);
}

#[test]
fn window_clear_keeps_capacity() {
    let mut w = RollingWindow::new(2);
    w.push(1);
    w.push(2);
    w.clear();
    assert!(w.is_empty());
    assert_eq!(w.capacity(), 2);
    assert_eq!(w.push(7), None);
    assert_eq!(contents(&w), vec![7]);
}

#[test]
fn window_to_vec_and_clone_keep_order() {
    let mut w = RollingWindow::new(3);
    for x in [1.5_f64, 2.5, 3.5, 4.5] {
        w.push(x);
    }
    assert_eq!(w.to_vec(), vec![2.5, 3.5, 4.5]);
    let mut c = w.clone();
    assert_eq!(c.capacity(), 3);
    assert_eq!(c.push(5.5), Some(2.5));
    assert_eq!(w.to_vec(), vec![2.5, 3.5, 4.5]);
    assert_eq!(c.to_vec(), vec![3.5, 4.5, 5.5]);
}

#[test]
fn window_streaming_keeps_most_recent_inputs() {
    let inputs: Vec<u32> = (0..50).collect();
    for cap in 1..8usize {
        let mut w = RollingWindow::new(cap);
        for &x in &inputs {
            w.push(x);
        }
        let start = inputs.len() - cap;
        assert_eq!(w.to_vec(), inputs[start..].to_vec());
    }
}
