use kanirenderer_viewer::chunking::{chunk_bounds, chunk_size};
use kanirenderer_viewer::picking::{
    align_up, depth_bytes_per_row, depth_pixel_index, padded_bytes_per_row, picking_buffer_size,
    plan_picking,
};

#[test]
fn align_up_values() {
    assert_eq!(align_up(0, 256), 0);
    assert_eq!(align_up(1, 256), 256);
    assert_eq!(align_up(256, 256), 256);
    assert_eq!(align_up(257, 256), 512);
    assert_eq!(align_up(10, 6), 12);
}

#[test]
fn staging_row_padding() {
    assert_eq!(depth_bytes_per_row(1440), 5760);
    // 5760 bytes round up to the next multiple of the copy alignment
    assert_eq!(padded_bytes_per_row(1440), 5888);
    // an already-aligned row stays
    assert_eq!(padded_bytes_per_row(64), 256);
}

#[test]
fn staging_buffer_size() {
    assert_eq!(picking_buffer_size(1440, 1080), 5888u64 * 1080);
    assert_eq!(picking_buffer_size(64, 2), 512);
}

#[test]
fn clicked_pixel_index() {
    assert_eq!(depth_pixel_index(0, 0, 1440), 0);
    assert_eq!(depth_pixel_index(10, 2, 100), 840);
}

#[test]
fn picking_request_combines_geometry() {
    let r = plan_picking(1440, 1080, 10, 2);
    assert_eq!(r.padded_bytes_per_row, 5888);
    assert_eq!(r.rows, 1080);
    assert_eq!(r.buffer_size, 5888u64 * 1080);
    assert_eq!(r.pixel_index, 4 * (10 + 2 * 1440));
}

#[test]
fn chunk_size_is_ceiling_of_an_eighth() {
    assert_eq!(chunk_size(1), 1);
    assert_eq!(chunk_size(8), 1);
    assert_eq!(chunk_size(9), 2);
    assert_eq!(chunk_size(16), 2);
    assert_eq!(chunk_size(17), 3);
    assert_eq!(chunk_size(1000), 125);
}

#[test]
fn chunks_partition_the_range() {
    for len in [0usize, 1, 2, 7, 8, 9, 15, 16, 17, 100, 1000] {
        let bounds = chunk_bounds(len);
        if len == 0 {
            assert!(bounds.is_empty());
            continue;
        }
        assert!(1 <= bounds.len() && bounds.len() <= 8);
        assert_eq!(bounds[0].0, 0);
        assert_eq!(bounds[bounds.len() - 1].1, len);
        for w in bounds.windows(2) {
            assert_eq!(w[0].1, w[1].0);
        }
        let cs = chunk_size(len);
        for &(s, e) in &bounds {
            assert!(s < e && e <= len);
            assert!(e - s <= cs);
        }
    }
}

#[test]
fn nine_models_split_into_five_chunks_of_two() {
    let bounds = chunk_bounds(9);
    assert_eq!(bounds[..], [(0, 2), (2, 4), (4, 6), (6, 8), (8, 9)]);
}
