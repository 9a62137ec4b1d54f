use odyssey::api_objects::DisplayTest;
use odyssey::configuration::DisplayConfig;
use odyssey::display::{Frame, PrintDisplay};
use odyssey::printfile::Layer;

fn display(bit_depth: Vec<u8>, width: u32, height: u32) -> PrintDisplay {
    PrintDisplay::new(DisplayConfig {
        frame_buffer: "/dev/null".to_owned(),
        bit_depth,
        screen_width: width,
        screen_height: height,
    })
}

fn png(width: u32, height: u32, depth: png::BitDepth, data: &[u8]) -> Vec<u8> {
    let mut out = Vec::new();
    {
        let mut encoder = png::Encoder::new(&mut out, width, height);
        encoder.set_color(png::ColorType::Grayscale);
        encoder.set_depth(depth);
        let mut writer = encoder.write_header().unwrap();
        writer.write_image_data(data).unwrap();
    }
    out
}

#[test]
fn eight_bit_frames_pass_an_eight_bit_layout_unchanged() {
    let sink = display(vec![8], 4, 1);
    let buffer = vec![0x00, 0x7F, 0x80, 0xFF, 0x01];
    assert!(sink.supports(8));
    assert_eq!(sink.re_encode(buffer.clone(), 8), buffer);
    assert_eq!(sink.re_encode(vec![], 8), Vec::<u8>::new());
}

#[test]
fn a_layout_at_the_depth_of_the_source_forwards_the_buffer() {
    let sink = display(vec![4], 4, 1);
    assert!(sink.supports(4));
    assert_eq!(sink.re_encode(vec![1, 2, 3], 4), vec![1, 2, 3]);
}

#[test]
fn three_pixels_pack_into_five_six_five() {
    let sink = display(vec![5, 6, 5], 1920, 1080);
    assert!(sink.supports(8));
    assert_eq!(sink.re_encode(vec![0xFF, 0xFF, 0xFF], 8), vec![0xFF, 0xFF]);
    assert_eq!(sink.re_encode(vec![0x00, 0x00, 0x00], 8), vec![0x00, 0x00]);
    // first pixel in the high bits, low byte first
    assert_eq!(sink.re_encode(vec![0xFF, 0x00, 0x00], 8), vec![0x00, 0xF8]);
    assert_eq!(sink.re_encode(vec![0x00, 0xFF, 0x00], 8), vec![0xE0, 0x07]);
    assert_eq!(sink.re_encode(vec![0x00, 0x00, 0xFF], 8), vec![0x1F, 0x00]);
    // the low bits of each pixel are dropped
    assert_eq!(sink.re_encode(vec![0x07, 0x03, 0x07], 8), vec![0x00, 0x00]);
    assert_eq!(sink.re_encode(vec![0x08, 0x04, 0x08], 8), vec![0x21, 0x08]);
}

#[test]
fn pixels_left_over_are_dropped() {
    let sink = display(vec![5, 6, 5], 2, 1);
    assert_eq!(
        sink.re_encode(vec![0xFF, 0xFF, 0xFF, 0x00, 0x00, 0x00, 0xFF, 0xFF], 8),
        vec![0xFF, 0xFF, 0x00, 0x00]
    );
    assert_eq!(sink.re_encode(vec![0xFF, 0xFF], 8), Vec::<u8>::new());
}

#[test]
fn a_chunk_is_written_in_whole_bytes_only() {
    // twelve bits: one byte is written and the high four bits are lost
    let sink = display(vec![4, 4, 4], 1, 1);
    assert_eq!(sink.re_encode(vec![0xA0, 0xB0, 0xC0], 8), vec![0xBC]);
    // four bits: nothing is written
    let sink = display(vec![2, 2], 1, 1);
    assert_eq!(sink.re_encode(vec![0xFF, 0xFF], 8), Vec::<u8>::new());
}

#[test]
fn eight_pixels_fill_a_chunk_of_sixty_four_bits() {
    let sink = display(vec![8; 8], 1, 1);
    assert!(sink.supports(8));
    assert_eq!(
        sink.re_encode(vec![1, 2, 3, 4, 5, 6, 7, 8], 8),
        vec![8, 7, 6, 5, 4, 3, 2, 1]
    );
}

#[test]
fn layouts_that_cannot_pack_are_told_apart() {
    assert!(!display(vec![], 1, 1).supports(8));
    assert!(!display(vec![8; 9], 1, 1).supports(8));
    assert!(!display(vec![5, 6, 5], 1, 1).supports(4));
    assert!(!display(vec![5, 6, 5], 1, 1).supports(70));
    assert!(display(vec![5, 6, 5], 1, 1).supports(65));
    assert!(display(vec![5, 6, 5], 1, 1).supports(16));
    assert!(display(vec![65], 1, 1).supports(65));
    assert!(display(vec![1], 1, 1).supports(8));
    // a chunk of 64 bits needs a first pixel that keeps a bit
    assert!(display(vec![8; 8], 1, 1).supports(8));
    assert!(!display(vec![0, 8, 8, 8, 8, 8, 8, 8, 8], 1, 1).supports(8));
    assert!(display(vec![8, 8, 8, 8, 8, 8, 8, 8, 0], 1, 1).supports(8));
    // a pixel may not lose 64 bits or more
    assert!(!display(vec![0, 8], 1, 1).supports(64));
    assert!(display(vec![1, 8], 1, 1).supports(64));
}

#[test]
fn a_pixel_may_keep_no_bit() {
    assert!(display(vec![5, 0, 5], 1, 1).supports(8));
    let sink = display(vec![5, 0, 5], 1, 1);
    assert_eq!(sink.re_encode(vec![0xFF, 0xAA, 0xFF], 8), vec![0xFF]);
    assert_eq!(sink.re_encode(vec![0x00, 0xFF, 0x00], 8), vec![0x00]);
    let sink = display(vec![0, 8], 1, 1);
    assert_eq!(sink.re_encode(vec![0xFF, 0x5A, 0x11, 0xA5, 0x77], 8), vec![0x5A, 0xA5]);
    let sink = display(vec![0], 1, 1);
    assert!(sink.supports(8));
    assert_eq!(sink.re_encode(vec![1, 2, 3], 8), Vec::<u8>::new());
    let sink = display(vec![8, 8, 8, 8, 8, 8, 8, 8, 0], 1, 1);
    assert_eq!(
        sink.re_encode(vec![1, 2, 3, 4, 5, 6, 7, 8, 9], 8),
        vec![8, 7, 6, 5, 4, 3, 2, 1]
    );
}

#[test]
fn the_output_has_the_whole_bytes_of_a_chunk_for_each_group() {
    let sink = display(vec![5, 6, 5], 1, 1);
    for pixels in 0..10usize {
        let out = sink.re_encode(vec![0x80; pixels], 8);
        assert_eq!(out.len(), (pixels / 3) * 2);
    }
    // each group makes its own bytes
    let both = sink.re_encode(vec![0xFF, 0x00, 0xFF, 0x00, 0xFF, 0x00], 8);
    assert_eq!(both[..2], sink.re_encode(vec![0xFF, 0x00, 0xFF], 8)[..]);
    assert_eq!(both[2..], sink.re_encode(vec![0x00, 0xFF, 0x00], 8)[..]);
}

#[test]
fn test_patterns_fill_the_screen() {
    let mut sink = display(vec![8], 4, 3);
    assert_eq!(sink.display_test(DisplayTest::White), vec![0xFF; 12]);
    assert_eq!(sink.display_test(DisplayTest::Blank), vec![0x00; 12]);
    assert_eq!(sink.display_test(DisplayTest::Grid), vec![0x00; 12]);
    assert_eq!(sink.display_test(DisplayTest::Dimensions), vec![0x00; 12]);
    let mut packed = display(vec![5, 6, 5], 3, 2);
    assert_eq!(packed.display_test(DisplayTest::White), vec![0xFF; 4]);
    assert_eq!(packed.display_test(DisplayTest::Blank), vec![0x00; 4]);
    let mut empty = display(vec![8], 0, 7);
    assert_eq!(empty.display_test(DisplayTest::White), Vec::<u8>::new());
}

#[test]
fn a_frame_is_shown_repacked() {
    let mut sink = display(vec![5, 6, 5], 3, 1);
    let frame = Frame {
        file_name: "0.png".to_string(),
        buffer: vec![0xFF, 0x00, 0xFF],
        exposure_time: 4000,
        bit_depth: 8,
    };
    assert_eq!(sink.display_frame(frame), vec![0x1F, 0xF8]);
}

#[test]
fn a_png_image_decodes_into_a_frame() {
    let data = png(3, 2, png::BitDepth::Eight, &[0, 1, 2, 253, 254, 255]);
    let frame = Frame::from_vec("00000.png".to_string(), 4000, data).unwrap();
    assert_eq!(frame.file_name, "00000.png");
    assert_eq!(frame.exposure_time, 4000);
    assert_eq!(frame.bit_depth, 8);
    assert_eq!(frame.buffer, vec![0, 1, 2, 253, 254, 255]);
}

#[test]
fn the_bit_depth_of_the_image_is_kept() {
    // two rows of four one-bit pixels, each row in one byte
    let data = png(4, 2, png::BitDepth::One, &[0b1010_0000, 0b0101_0000]);
    let frame = Frame::from_vec("a.png".to_string(), 1, data).unwrap();
    assert_eq!(frame.bit_depth, 1);
    assert_eq!(frame.buffer, vec![0b1010_0000, 0b0101_0000]);
}

#[test]
fn bytes_that_are_no_png_image_give_no_frame() {
    assert!(Frame::from_vec("a.png".to_string(), 1, vec![]).is_none());
    assert!(Frame::from_vec("a.png".to_string(), 1, b"not a png".to_vec()).is_none());
    let mut cut = png(3, 2, png::BitDepth::Eight, &[0, 1, 2, 253, 254, 255]);
    cut.truncate(40);
    assert!(Frame::from_vec("a.png".to_string(), 1, cut).is_none());
}

#[test]
fn a_frame_is_made_of_what_was_decoded() {
    let frame = Frame::from_decoded("n".to_string(), 7, Some((vec![1, 2], 8))).unwrap();
    assert_eq!(frame.buffer, vec![1, 2]);
    assert_eq!(frame.bit_depth, 8);
    assert_eq!(frame.exposure_time, 7);
    assert!(Frame::from_decoded("n".to_string(), 7, None).is_none());
}

#[test]
fn the_frame_of_a_layer_has_its_name_and_exposure() {
    let layer = Layer {
        file_name: "00001.png".to_string(),
        data: png(1, 1, png::BitDepth::Eight, &[9]),
        exposure_time: 14000,
    };
    let frame = Frame::from_layer(Some(layer)).unwrap();
    assert_eq!(frame.file_name, "00001.png");
    assert_eq!(frame.exposure_time, 14000);
    assert_eq!(frame.buffer, vec![9]);
    assert!(Frame::from_layer(None).is_none());
    let broken = Layer { file_name: "x.png".to_string(), data: vec![1, 2, 3], exposure_time: 1 };
    assert!(Frame::from_layer(Some(broken)).is_none());
}
