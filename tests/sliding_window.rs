use gwaggli::sliding_window::SlidingWindow;

#[test]
fn test_sliding_window() {
    let mut sliding_window = SlidingWindow::new(10, 5);

    for i in 0..10 {
        sliding_window.push(vec![i, i, i, i, i, i, i, i, i, i]);
    }

    assert_eq!(
        sliding_window.poll_next().unwrap(),
        vec![0, 0, 0, 0, 0, 0, 0, 0, 0, 0]
    );
    assert_eq!(
        sliding_window.poll_next().unwrap(),
        vec![0, 0, 0, 0, 0, 1, 1, 1, 1, 1]
    );
    assert_eq!(
        sliding_window.poll_next().unwrap(),
        vec![1, 1, 1, 1, 1, 1, 1, 1, 1, 1]
    );
    assert_eq!(
        sliding_window.poll_next().unwrap(),
        vec![1, 1, 1, 1, 1, 2, 2, 2, 2, 2]
    );
}

fn drain(w: &mut SlidingWindow<u32>) -> Vec<Vec<u32>> {
    let mut frames = Vec::new();
    while let Some(f) = w.poll_next() {
        frames.push(f);
    }
    frames
}

#[test]
fn frame_count_and_positions_follow_the_input() {
    let mut w = SlidingWindow::new(4, 3);
    w.push((0..5).collect());
    w.push(vec![]);
    w.push((5..11).collect());
    let frames = drain(&mut w);
    // n = 11, w = 4, f = 3: (11 - 4) / 3 + 1 frames
    assert_eq!(frames.len(), 3);
    for (k, frame) in frames.iter().enumerate() {
        let start = (k * 3) as u32;
        assert_eq!(frame, &(start..start + 4).collect::<Vec<u32>>());
    }
}

#[test]
fn consecutive_frames_overlap_by_window_minus_hop() {
    let mut w = SlidingWindow::new(6, 2);
    w.push((0..20).collect());
    let frames = drain(&mut w);
    assert_eq!(frames.len(), 8);
    for pair in frames.windows(2) {
        assert_eq!(pair[0][2..], pair[1][..4]);
    }
}

#[test]
fn no_frame_below_a_full_window() {
    let mut w = SlidingWindow::new(5, 5);
    w.push(vec![1, 2]);
    assert_eq!(w.poll_next(), None);
    w.push(vec![3, 4]);
    assert_eq!(w.poll_next(), None);
    w.push(vec![5]);
    assert_eq!(w.poll_next(), Some(vec![1, 2, 3, 4, 5]));
    assert_eq!(w.poll_next(), None);
}

#[test]
fn backlog_drains_one_hop_per_frame() {
    let mut w = SlidingWindow::new(3, 1);
    w.push(vec![1, 2, 3, 4, 5]);
    assert_eq!(w.poll_next(), Some(vec![1, 2, 3]));
    assert_eq!(w.poll_next(), Some(vec![2, 3, 4]));
    assert_eq!(w.poll_next(), Some(vec![3, 4, 5]));
    assert_eq!(w.poll_next(), None);
    w.push(vec![6]);
    assert_eq!(w.poll_next(), Some(vec![4, 5, 6]));
}

#[test]
fn hop_equal_to_window_gives_disjoint_frames() {
    let mut w = SlidingWindow::new(2, 2);
    w.push(vec![1, 2, 3, 4, 5]);
    assert_eq!(drain(&mut w), vec![vec![1, 2], vec![3, 4]]);
}

#[test]
fn getters_report_the_configuration_and_backlog() {
    let mut w = SlidingWindow::new(8, 3);
    assert_eq!(w.window_size(), 8);
    assert_eq!(w.frame_size(), 3);
    assert_eq!(w.pending_count(), 0);
    w.push(vec![0u8; 10]);
    assert_eq!(w.pending_count(), 10);
    w.poll_next();
    assert_eq!(w.pending_count(), 7);
}
