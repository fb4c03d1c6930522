use image_proc::{ConvterColor, ImageData, ImgError, PreProc};

fn img(width: u32, height: u32, channels: u32, data: Vec<u8>) -> ImageData {
    ImageData { width, height, channels, data }
}

fn luma(r: u8, g: u8, b: u8) -> u8 {
    ((2126u32 * r as u32 + 7152u32 * g as u32 + 722u32 * b as u32) / 10000u32) as u8
}

#[test]
fn gray_of_rgb_has_same_dimensions_one_channel() {
    let src = img(2, 2, 3, vec![
        255, 0, 0, 0, 255, 0, 0, 0, 255, 10, 20, 30,
    ]);
    let g = ConvterColor::to_gray(&src).unwrap();
    assert_eq!(g.width, 2);
    assert_eq!(g.height, 2);
    assert_eq!(g.channels, 1);
    assert_eq!(
        g.data,
        vec![
            luma(255, 0, 0),
            luma(0, 255, 0),
            luma(0, 0, 255),
            luma(10, 20, 30)
        ]
    );
}

#[test]
fn gray_of_luma_input_copies_bytes() {
    let src = img(3, 1, 1, vec![7, 128, 250]);
    let g = ConvterColor::to_gray(&src).unwrap();
    assert_eq!(g.channels, 1);
    assert_eq!(g.data, vec![7, 128, 250]);
}

#[test]
fn gray_of_rgba_ignores_alpha() {
    let with_alpha = img(1, 1, 4, vec![10, 20, 30, 200]);
    let without = img(1, 1, 3, vec![10, 20, 30]);
    let ga = ConvterColor::to_gray(&with_alpha).unwrap();
    let gb = ConvterColor::to_gray(&without).unwrap();
    assert_eq!(ga.data, gb.data);
}

#[test]
fn gray_weights_red_down() {
    // pure red must come out as its luma, not as the red byte itself
    let src = img(1, 1, 3, vec![255, 0, 0]);
    let g = ConvterColor::to_gray(&src).unwrap();
    assert_eq!(g.data, vec![54]);
}

#[test]
fn empty_image_fails_every_algorithm() {
    let zero_w = img(0, 5, 3, vec![]);
    let zero_h = img(5, 0, 3, vec![]);
    assert_eq!(ConvterColor::to_gray(&zero_w).unwrap_err(), ImgError::EmptyImage);
    assert_eq!(ConvterColor::to_gray(&zero_h).unwrap_err(), ImgError::EmptyImage);
    assert_eq!(ConvterColor::to_hsv_image(&zero_w).unwrap_err(), ImgError::EmptyImage);
    assert_eq!(ConvterColor::to_hsv_image(&zero_h).unwrap_err(), ImgError::EmptyImage);
    let ctx = PreProc::new(zero_w);
    let gray = img(1, 1, 1, vec![9]);
    assert_eq!(ctx.threshold(gray, 4).unwrap_err(), ImgError::EmptyImage);
}

#[test]
fn unsupported_channel_count_is_refused() {
    let two = img(1, 1, 2, vec![1, 2]);
    assert_eq!(ConvterColor::to_gray(&two).unwrap_err(), ImgError::UnsupportedFormat);
    let one = img(2, 1, 1, vec![1, 2]);
    assert_eq!(
        ConvterColor::to_hsv_image(&one).unwrap_err(),
        ImgError::UnsupportedFormat
    );
}

#[test]
fn threshold_is_binary_and_strict() {
    let ctx = PreProc::new(img(1, 1, 3, vec![1, 2, 3]));
    let gray = img(4, 1, 1, vec![0, 128, 129, 255]);
    let out = ctx.threshold(gray, 128).unwrap();
    // a byte equal to the threshold maps to 0, one above to 255
    assert_eq!(out.data, vec![0, 0, 255, 255]);
    for b in out.data {
        assert!(b == 0 || b == 255);
    }
}

#[test]
fn threshold_extreme_thresholds() {
    let ctx = PreProc::new(img(1, 1, 1, vec![5]));
    let low = ctx.threshold(img(3, 1, 1, vec![0, 1, 255]), 0).unwrap();
    assert_eq!(low.data, vec![0, 255, 255]);
    let high = ctx.threshold(img(3, 1, 1, vec![0, 1, 255]), 255).unwrap();
    assert_eq!(high.data, vec![0, 0, 0]);
}

#[test]
fn threshold_twice_equals_once() {
    let ctx = PreProc::new(img(1, 1, 1, vec![5]));
    let gray = img(5, 1, 1, vec![0, 77, 128, 129, 200]);
    let once = ctx.threshold(gray, 128).unwrap();
    let again = img(once.width, once.height, 1, once.data.clone());
    let twice = ctx.threshold(again, 128).unwrap();
    assert_eq!(twice.data, once.data);
}

#[test]
fn threshold_guards_context_not_operand() {
    // the emptiness guard checks the context's own image, while the
    // algorithm runs on the caller-supplied grayscale data
    let ctx = PreProc::new(img(1, 1, 3, vec![9, 9, 9]));
    let gray = img(2, 1, 1, vec![10, 200]);
    let out = ctx.threshold(gray, 100).unwrap();
    assert_eq!((out.width, out.height), (2, 1));
    assert_eq!(out.data, vec![0, 255]);
}

#[test]
fn hsv_of_pure_red() {
    let src = img(1, 1, 3, vec![255, 0, 0]);
    let hsv = ConvterColor::to_hsv_image(&src).unwrap();
    assert_eq!(hsv.channels, 3);
    assert_eq!(hsv.data, vec![0, 255, 255]);
}

#[test]
fn hsv_of_pure_gray() {
    let src = img(1, 1, 3, vec![128, 128, 128]);
    let hsv = ConvterColor::to_hsv_image(&src).unwrap();
    assert_eq!(hsv.data, vec![0, 0, 128]);
}

#[test]
fn hsv_of_green_and_blue() {
    // green: hue 120 degrees scales to 85; blue: hue 240 scales to 170
    let src = img(2, 1, 3, vec![0, 255, 0, 0, 0, 255]);
    let hsv = ConvterColor::to_hsv_image(&src).unwrap();
    assert_eq!(hsv.data, vec![85, 255, 255, 170, 255, 255]);
}

#[test]
fn hsv_of_rgba_reads_rgb() {
    let src = img(1, 1, 4, vec![255, 0, 0, 77]);
    let hsv = ConvterColor::to_hsv_image(&src).unwrap();
    assert_eq!(hsv.data, vec![0, 255, 255]);
}

#[test]
fn rgb_to_hsv_pixel_examples() {
    assert_eq!(ConvterColor::rgb_to_hsv(255, 0, 0), (0, 255, 255));
    assert_eq!(ConvterColor::rgb_to_hsv(128, 128, 128), (0, 0, 128));
    assert_eq!(ConvterColor::rgb_to_hsv(0, 0, 0), (0, 0, 0));
    // red max with g < b wraps the hue below 360 degrees
    assert_eq!(ConvterColor::rgb_to_hsv(255, 0, 255), (212, 255, 255));
}

#[test]
fn context_owns_a_byte_identical_copyable_view() {
    let bytes = vec![1, 2, 3, 4, 5, 6];
    let ctx = PreProc::new(img(2, 1, 3, bytes.clone()));
    assert!(!ctx.is_empty());
    assert_eq!(ctx.image().data, bytes);
    // repeated operations on the same context are independent
    let first = ctx.to_gray().unwrap();
    let second = ctx.to_gray().unwrap();
    assert_eq!(first.data, second.data);
    assert_eq!(ctx.image().data, bytes);
}
