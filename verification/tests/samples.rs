use knoobar::samples::{mono_to_stereo, take_stereo, to_stereo};

#[test]
fn mono_is_duplicated() {
    assert_eq!(mono_to_stereo(&[1, 2, 3]), vec![1, 1, 2, 2, 3, 3]);
    assert_eq!(mono_to_stereo::<i32>(&[]), Vec::<i32>::new());
    assert_eq!(mono_to_stereo(&[0.5f32, -0.25]), vec![0.5f32, 0.5, -0.25, -0.25]);
}

#[test]
fn wide_layouts_keep_first_two_channels() {
    assert_eq!(take_stereo(&[1, 2, 3, 4, 5, 6], 3), vec![1, 2, 4, 5]);
    assert_eq!(take_stereo(&[1, 2, 3, 4, 5, 6, 7], 3), vec![1, 2, 4, 5]);
    assert_eq!(take_stereo(&[1, 2, 3, 4, 5, 6, 7, 8], 4), vec![1, 2, 5, 6]);
    assert_eq!(take_stereo(&[1, 2, 3], 1), vec![1, 1, 2, 2, 3, 3]);
}

#[test]
fn stereo_passes_through() {
    assert_eq!(take_stereo(&[1, 2, 3], 2), vec![1, 2, 3]);
    assert_eq!(to_stereo(&[9, 8, 7, 6], 2), vec![9, 8, 7, 6]);
}

#[test]
fn to_stereo_dispatches_on_channel_count() {
    assert_eq!(to_stereo(&[1, 2], 0), vec![1, 1, 2, 2]);
    assert_eq!(to_stereo(&[1, 2], 1), vec![1, 1, 2, 2]);
    assert_eq!(to_stereo(&[1, 2, 3, 4, 5, 6], 6), vec![1, 2]);
    assert_eq!(to_stereo(&[0.1f32, 0.2, 0.3, 0.4, 0.5, 0.6], 3), vec![0.1f32, 0.2, 0.4, 0.5]);
}

#[test]
fn stereo_output_has_whole_frames() {
    for ch in [0usize, 1, 3, 4, 5, 6, 8] {
        let data: Vec<u16> = (0..37).collect();
        assert_eq!(to_stereo(&data, ch).len() % 2, 0);
    }
}
