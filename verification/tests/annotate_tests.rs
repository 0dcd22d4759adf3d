use computemodule::annotate::render;
use computemodule::model::{Classification, DetectionOutcome};
use computemodule::pixbuf::{Pixel, RgbaBuffer};
use computemodule::region::Region;

fn white_buffer(w: u32, h: u32) -> RgbaBuffer {
    RgbaBuffer::from_raw(w, h, vec![255u8; (w * h * 4) as usize]).unwrap()
}

fn decode_output(enc: &str) -> image::RgbaImage {
    let png = base64::Engine::decode(&base64::engine::general_purpose::STANDARD, enc).unwrap();
    image::load_from_memory(&png).unwrap().to_rgba8()
}

#[test]
fn scenario_forged_region_not_cropped() {
    let buf = white_buffer(100, 100);
    let outcome = DetectionOutcome {
        forged: vec![Region::new(10, 10, 50, 50)],
        missing: vec![],
        is_cropped: false,
    };
    let q = render(buf, "orig", &outcome).unwrap();
    assert_eq!(q.result, Classification::Edited);
    assert_eq!(q.text, "Forged region: from (10, 10) to (50, 50)\n");
    let img = decode_output(&q.enc_img_out);
    assert_eq!(img.dimensions(), (100, 100));
    let red = image::Rgba([255u8, 0, 0, 255]);
    let white = image::Rgba([255u8, 255, 255, 255]);
    for t in 10..=50u32 {
        assert_eq!(*img.get_pixel(t, 10), red);
        assert_eq!(*img.get_pixel(t, 50), red);
        assert_eq!(*img.get_pixel(10, t), red);
        assert_eq!(*img.get_pixel(50, t), red);
    }
    assert_eq!(*img.get_pixel(30, 30), white);
    assert_eq!(*img.get_pixel(11, 12), white);
    assert_eq!(*img.get_pixel(9, 9), white);
    assert_eq!(*img.get_pixel(51, 51), white);
}

#[test]
fn scenario_no_regions_cropped() {
    let buf = white_buffer(8, 8);
    let outcome = DetectionOutcome { forged: vec![], missing: vec![], is_cropped: true };
    let q = render(buf, "the original bytes", &outcome).unwrap();
    assert_eq!(q.result, Classification::Cropped);
    assert_eq!(q.enc_img_out, "the original bytes");
    assert_eq!(q.text, "");
}

#[test]
fn no_regions_not_cropped_is_clean() {
    let buf = white_buffer(8, 8);
    let outcome = DetectionOutcome { forged: vec![], missing: vec![], is_cropped: false };
    let q = render(buf, "abc123==", &outcome).unwrap();
    assert_eq!(q.result, Classification::Clean);
    assert_eq!(q.enc_img_out, "abc123==");
    assert_eq!(q.text, "");
}

#[test]
fn regions_and_cropped_is_editcrop() {
    let buf = white_buffer(20, 20);
    let outcome = DetectionOutcome {
        forged: vec![Region::new(1, 2, 3, 4)],
        missing: vec![Region::new(5, 6, 7, 8)],
        is_cropped: true,
    };
    let q = render(buf, "orig", &outcome).unwrap();
    assert_eq!(q.result, Classification::Editcrop);
    assert_eq!(
        q.text,
        "Forged region: from (1, 2) to (3, 4)\nForged region: from (5, 6) to (7, 8)\n"
    );
}

#[test]
fn merge_order_is_forged_then_missing() {
    let buf = white_buffer(30, 30);
    let outcome = DetectionOutcome {
        forged: vec![Region::new(20, 20, 25, 25)],
        missing: vec![Region::new(0, 0, 5, 5)],
        is_cropped: false,
    };
    let q = render(buf, "orig", &outcome).unwrap();
    assert_eq!(q.result, Classification::Edited);
    assert_eq!(
        q.text,
        "Forged region: from (20, 20) to (25, 25)\nForged region: from (0, 0) to (5, 5)\n"
    );
}

#[test]
fn draw_hollow_rect_touches_only_the_outline() {
    let mut buf = RgbaBuffer::from_raw(8, 8, vec![0u8; 8 * 8 * 4]).unwrap();
    let red = Pixel { r: 255, g: 0, b: 0, a: 255 };
    let black = Pixel { r: 0, g: 0, b: 0, a: 0 };
    buf.draw_hollow_rect(&Region::new(2, 2, 5, 5), red);
    for x in 2..=5u32 {
        assert_eq!(buf.get_pixel(x, 2), red);
        assert_eq!(buf.get_pixel(x, 5), red);
        assert_eq!(buf.get_pixel(2, x), red);
        assert_eq!(buf.get_pixel(5, x), red);
    }
    assert_eq!(buf.get_pixel(3, 3), black);
    assert_eq!(buf.get_pixel(4, 4), black);
    assert_eq!(buf.get_pixel(1, 2), black);
    assert_eq!(buf.get_pixel(6, 5), black);
    assert_eq!(buf.get_pixel(0, 0), black);
}

#[test]
fn single_pixel_region_is_one_dot() {
    let mut buf = RgbaBuffer::from_raw(4, 4, vec![9u8; 4 * 4 * 4]).unwrap();
    let red = Pixel { r: 255, g: 0, b: 0, a: 255 };
    buf.draw_hollow_rect(&Region::new(1, 1, 1, 1), red);
    assert_eq!(buf.get_pixel(1, 1), red);
    assert_eq!(buf.get_pixel(0, 1), Pixel { r: 9, g: 9, b: 9, a: 9 });
    assert_eq!(buf.get_pixel(2, 1), Pixel { r: 9, g: 9, b: 9, a: 9 });
}

#[test]
fn from_raw_rejects_wrong_length() {
    assert!(RgbaBuffer::from_raw(2, 2, vec![0u8; 15]).is_none());
    assert!(RgbaBuffer::from_raw(2, 2, vec![0u8; 16]).is_some());
}
