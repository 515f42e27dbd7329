use kanirenderer_viewer::frametime::FrameTimeGraph;

#[test]
fn new_graph_is_zeroed() {
    let g = FrameTimeGraph::new();
    assert_eq!(g.max_points, 256);
    assert_eq!(g.buffer.len(), 256);
    assert_eq!(g.current_index, 0);
    assert!(g.buffer.iter().all(|&w| w == 0));
}

#[test]
fn prefix_holds_written_sequence_in_order() {
    let mut g = FrameTimeGraph::new();
    let samples: Vec<u32> = (0..10).map(|i| (16.0f32 + i as f32).to_bits()).collect();
    for &s in &samples {
        g.update(s);
    }
    assert_eq!(g.current_index, 10);
    assert_eq!(&g.buffer[0..10], &samples[..]);
    assert!(g.buffer[10..].iter().all(|&w| w == 0));
}

#[test]
fn cursor_wraps_after_capacity_writes() {
    let mut g = FrameTimeGraph::new();
    for i in 0..256u32 {
        g.update(i + 1);
    }
    assert_eq!(g.current_index, 0);
    for i in 0..256usize {
        assert_eq!(g.buffer[i], i as u32 + 1);
    }
}

#[test]
fn write_257th_overwrites_slot_zero() {
    let mut g = FrameTimeGraph::new();
    for i in 0..257u32 {
        g.update(i + 1);
    }
    assert_eq!(g.current_index, 1);
    // slot 0 holds the 257th sample; slots 1.. still hold samples 2..256
    assert_eq!(g.buffer[0], 257);
    for i in 1..256usize {
        assert_eq!(g.buffer[i], i as u32 + 1);
    }
}

#[test]
fn millisecond_words_round_trip() {
    let mut g = FrameTimeGraph::new();
    let dt_ms = 8.333f32;
    g.update(dt_ms.to_bits());
    assert_eq!(f32::from_bits(g.buffer[0]), dt_ms);
}
