use gstplugins::ridgeline::{plot_range, window_start, History, MARGIN, NUM_BINS, NUM_LINES};

#[test]
fn new_history_is_full_of_blank_lines() {
    let h = History::new([0f32; NUM_BINS]);
    assert_eq!(h.len(), NUM_LINES);
    for i in 0..NUM_LINES {
        assert_eq!(h.get(i), &[0f32; NUM_BINS]);
    }
}

#[test]
fn push_drops_the_oldest_line() {
    let mut h = History::new(0u32);
    for v in 1..=3u32 {
        h.push(v);
    }
    assert_eq!(h.len(), NUM_LINES);
    // oldest first: 61 blanks, then 1, 2, 3
    assert_eq!(*h.get(0), 0);
    assert_eq!(*h.get(NUM_LINES - 3), 1);
    assert_eq!(*h.get(NUM_LINES - 2), 2);
    assert_eq!(*h.get(NUM_LINES - 1), 3);
}

#[test]
fn history_keeps_only_the_latest_lines() {
    let mut h = History::new(0u32);
    for v in 1..=200u32 {
        h.push(v);
        assert_eq!(h.len(), NUM_LINES);
    }
    for i in 0..NUM_LINES {
        assert_eq!(*h.get(i), 200 - NUM_LINES as u32 + 1 + i as u32);
    }
}

#[test]
fn float_rows_keep_their_values() {
    let mut h = History::new([0f32; NUM_BINS]);
    let mut row = [0f32; NUM_BINS];
    row[5] = 0.5;
    h.push(row);
    assert_eq!(h.get(NUM_LINES - 1)[5], 0.5);
    assert_eq!(h.get(NUM_LINES - 2)[5], 0.0);
}

#[test]
fn plot_range_leaves_margins() {
    assert_eq!(MARGIN, 20);
    assert_eq!(plot_range(640), (20, 620));
    assert_eq!(plot_range(42), (20, 22));
}

#[test]
fn plot_range_is_never_empty() {
    assert_eq!(plot_range(41), (20, 21));
    assert_eq!(plot_range(0), (20, 21));
    assert_eq!(plot_range(-100), (20, 21));
}

#[test]
fn window_is_the_last_samples() {
    assert_eq!(window_start(256), Some(0));
    assert_eq!(window_start(1024), Some(768));
    assert_eq!(window_start(255), None);
    assert_eq!(window_start(0), None);
}
