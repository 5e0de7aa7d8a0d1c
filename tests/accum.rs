use pathtracer::accum::Accumulator;

type Color = [f32; 3];

const BLACK: Color = [0.0, 0.0, 0.0];

fn add(a: Color, b: Color) -> Color {
    [a[0] + b[0], a[1] + b[1], a[2] + b[2]]
}

#[test]
fn new_buffer_is_empty() {
    let acc: Accumulator<Color> = Accumulator::new(4, 3, BLACK);
    assert_eq!(acc.width(), 4);
    assert_eq!(acc.height(), 3);
    assert_eq!(acc.frames(), 0);
    for k in 0..12 {
        assert_eq!(acc.sum_at(k), BLACK);
    }
}

#[test]
fn pixel_index_is_row_major() {
    let acc: Accumulator<Color> = Accumulator::new(4, 3, BLACK);
    assert_eq!(acc.pixel_index(0, 0), 0);
    assert_eq!(acc.pixel_index(3, 0), 3);
    assert_eq!(acc.pixel_index(1, 2), 9);
    assert_eq!(acc.pixel_index(3, 2), 11);
}

#[test]
fn samples_accumulate_across_frames() {
    let mut acc: Accumulator<Color> = Accumulator::new(2, 2, BLACK);
    let k = acc.pixel_index(1, 1);
    for _ in 0..4 {
        let s = add(acc.sum_at(k), [0.25, 0.5, 1.0]);
        acc.store_sum(k, s);
        acc.finish_frame();
    }
    assert_eq!(acc.frames(), 4);
    assert_eq!(acc.sum_at(k), [1.0, 2.0, 4.0]);
    assert_eq!(acc.sum_at(0), BLACK);
}

#[test]
fn camera_move_reset_zeroes_sums_and_count() {
    let mut acc: Accumulator<Color> = Accumulator::new(3, 2, BLACK);
    for k in 0..6 {
        acc.store_sum(k, [1.0, 0.5, 0.25]);
    }
    acc.finish_frame();
    acc.finish_frame();
    acc.reset(BLACK);
    assert_eq!(acc.frames(), 0);
    assert_eq!(acc.width(), 3);
    assert_eq!(acc.height(), 2);
    for k in 0..6 {
        assert_eq!(acc.sum_at(k), BLACK);
    }
}

#[test]
fn single_pixel_buffer() {
    let mut acc: Accumulator<u64> = Accumulator::new(1, 1, 0);
    acc.store_sum(0, 7);
    acc.finish_frame();
    assert_eq!(acc.sum_at(0), 7);
    acc.reset(0);
    assert_eq!(acc.sum_at(0), 0);
}

#[test]
fn empty_image_has_no_pixels() {
    let mut acc: Accumulator<u64> = Accumulator::new(0, 5, 0);
    acc.reset(0);
    acc.finish_frame();
    assert_eq!(acc.frames(), 1);
}
