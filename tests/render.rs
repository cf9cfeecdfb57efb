use synth::render::write_frames;

#[test]
fn stereo_frames_interleave() {
    let mut out = [0i16; 6];
    write_frames(&mut out, 2, &[1, 2, 3], &[-1, -2, -3]);
    assert_eq!(out, [1, -1, 2, -2, 3, -3]);
}

#[test]
fn more_channels_alternate_left_and_right() {
    let mut out = [0u16; 8];
    write_frames(&mut out, 4, &[10, 20], &[11, 21]);
    assert_eq!(out, [10, 11, 10, 11, 20, 21, 20, 21]);
}

#[test]
fn mono_takes_the_left_sample() {
    let mut out = [0i32; 3];
    write_frames(&mut out, 1, &[7, 8, 9], &[0, 0, 0]);
    assert_eq!(out, [7, 8, 9]);
}

#[test]
fn partial_last_frame() {
    let mut out = [0u8; 5];
    write_frames(&mut out, 2, &[1, 3, 5], &[2, 4, 6]);
    assert_eq!(out, [1, 2, 3, 4, 5]);
}
