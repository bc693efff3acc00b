use hanzi_reader::det::{
    crop_map, find_box, find_text_img, find_text_rect, preprocess, regions_from_contours, sort_reading_order,
    Contour, DetectorParams,
};
use hanzi_reader::error::OcrError;
use hanzi_reader::geometry::get_pad_length;
use hanzi_reader::raster::{crop, decode_image, RasterImage, TextRegion};

fn mask_with(w: u32, h: u32, rects: &[(u32, u32, u32, u32)], value: u8) -> Vec<u8> {
    let mut m = vec![0u8; (w * h) as usize];
    for &(x0, y0, x1, y1) in rects {
        for y in y0..=y1 {
            for x in x0..=x1 {
                m[(y * w + x) as usize] = value;
            }
        }
    }
    m
}

fn rgba(w: u32, h: u32) -> RasterImage {
    let mut pixels = Vec::new();
    for y in 0..h {
        for x in 0..w {
            pixels.extend_from_slice(&[x as u8, y as u8, (x + y) as u8, 255]);
        }
    }
    RasterImage { width: w, height: h, pixels }
}

#[test]
fn pad_length_rounds_up_to_multiple_of_32() {
    assert_eq!(get_pad_length(33), 64);
    assert_eq!(get_pad_length(32), 32);
    assert_eq!(get_pad_length(0), 0);
    assert_eq!(get_pad_length(1), 32);
    assert_eq!(get_pad_length(65), 96);
}

#[test]
fn default_params_match_trained_networks() {
    let p = DetectorParams::default();
    assert_eq!(p.threshold, 200);
    assert_eq!(p.margin, 8);
    assert_eq!(p.min_side, 5);
    assert!(!p.reading_order);
}

#[test]
fn preprocess_pads_with_none() {
    let img = rgba(2, 1);
    let input = preprocess(&img);
    assert_eq!(input.padded_width, 32);
    assert_eq!(input.padded_height, 32);
    assert_eq!(input.red.len(), 32 * 32);
    assert_eq!(input.red[0], Some(0));
    assert_eq!(input.red[1], Some(1));
    assert_eq!(input.green[1], Some(0));
    assert_eq!(input.blue[1], Some(1));
    assert_eq!(input.red[2], None);
    assert_eq!(input.red[32], None);
    assert_eq!(input.blue[32 * 32 - 1], None);
}

#[test]
fn crop_map_drops_padding() {
    let map: Vec<u8> = (0..(4 * 3) as u32).map(|v| v as u8).collect();
    let mask = crop_map(&map, 4, 2, 2);
    assert_eq!(mask, vec![0, 1, 4, 5]);
}

#[test]
fn crop_copies_region() {
    let img = rgba(5, 4);
    let c = crop(&img, TextRegion { left: 1, top: 2, width: 3, height: 2 });
    assert_eq!(c.width, 3);
    assert_eq!(c.height, 2);
    assert_eq!(c.pixels.len(), 3 * 2 * 4);
    assert_eq!(&c.pixels[0..4], &[1, 2, 3, 255]);
    assert_eq!(&c.pixels[20..24], &[3, 3, 6, 255]);
}

#[test]
fn blank_mask_gives_no_regions() {
    let p = DetectorParams::default();
    assert!(find_box(&vec![0u8; 40 * 30], 40, 30, p).is_empty());
    assert!(find_box(&vec![200u8; 40 * 30], 40, 30, p).is_empty());
}

#[test]
fn filled_rectangle_gives_expanded_region() {
    let p = DetectorParams::default();
    let mask = mask_with(40, 30, &[(10, 5, 19, 14)], 255);
    let r = find_box(&mask, 40, 30, p);
    assert_eq!(r, vec![TextRegion { left: 2, top: 0, width: 25, height: 22 }]);
}

#[test]
fn pixels_at_threshold_are_background() {
    let p = DetectorParams::default();
    let mask = mask_with(40, 30, &[(10, 5, 19, 14)], 200);
    assert!(find_box(&mask, 40, 30, p).is_empty());
    let mask = mask_with(40, 30, &[(10, 5, 19, 14)], 201);
    assert_eq!(find_box(&mask, 40, 30, p).len(), 1);
}

#[test]
fn shape_with_hole_gives_one_region() {
    let p = DetectorParams::default();
    let mut mask = mask_with(60, 60, &[(10, 10, 40, 40)], 255);
    for y in 18..=32u32 {
        for x in 18..=32u32 {
            mask[(y * 60 + x) as usize] = 0;
        }
    }
    let r = find_box(&mask, 60, 60, p);
    assert_eq!(r, vec![TextRegion { left: 2, top: 2, width: 46, height: 46 }]);
}

#[test]
fn regions_stay_inside_image() {
    let p = DetectorParams::default();
    let mask = mask_with(30, 20, &[(1, 1, 28, 18)], 255);
    let r = find_box(&mask, 30, 20, p);
    assert_eq!(r, vec![TextRegion { left: 0, top: 0, width: 30, height: 20 }]);
    for region in &r {
        assert!(region.left + region.width <= 30);
        assert!(region.top + region.height <= 20);
    }
}

#[test]
fn small_regions_are_noise() {
    let p = DetectorParams::default();
    let mask = mask_with(5, 5, &[(1, 1, 2, 2)], 255);
    assert!(find_box(&mask, 5, 5, p).is_empty());
    let loose = DetectorParams { min_side: 4, ..DetectorParams::default() };
    assert_eq!(find_box(&mask, 5, 5, loose), vec![TextRegion { left: 0, top: 0, width: 5, height: 5 }]);
}

#[test]
fn contours_with_parent_are_skipped() {
    let p = DetectorParams::default();
    let outer = Contour { points: vec![(20, 20), (40, 20), (40, 30), (20, 30)], parent: None };
    let hole = Contour { points: vec![(25, 22), (35, 28)], parent: Some(0) };
    let second = Contour { points: vec![(50, 50), (60, 55)], parent: None };
    let r = regions_from_contours(&vec![outer, hole, second], 100, 100, p);
    assert_eq!(
        r,
        vec![
            TextRegion { left: 12, top: 12, width: 36, height: 26 },
            TextRegion { left: 42, top: 42, width: 26, height: 21 },
        ]
    );
    let empty = Contour { points: vec![], parent: None };
    assert!(regions_from_contours(&vec![empty], 100, 100, p).is_empty());
}

#[test]
fn text_rect_reads_map_over_image_only() {
    let p = DetectorParams::default();
    let mut map = vec![0u8; 64 * 32];
    for y in 5..=14usize {
        for x in 10..=19usize {
            map[y * 64 + x] = 255;
        }
    }
    // text in the padding is ignored
    for y in 0..32usize {
        for x in 45..64usize {
            map[y * 64 + x] = 255;
        }
    }
    let r = find_text_rect(&map, 40, 30, p).unwrap();
    assert_eq!(r, vec![TextRegion { left: 2, top: 0, width: 25, height: 22 }]);
}

#[test]
fn text_rect_rejects_wrong_map_size() {
    let p = DetectorParams::default();
    let r = find_text_rect(&vec![0u8; 40 * 30], 40, 30, p);
    assert!(matches!(r, Err(OcrError::Tensor(_))));
}

#[test]
fn decode_image_reads_png() {
    let src = image::RgbaImage::from_raw(2, 1, vec![1, 2, 3, 4, 5, 6, 7, 8]).unwrap();
    let mut bytes = std::io::Cursor::new(Vec::new());
    src.write_to(&mut bytes, image::ImageFormat::Png).unwrap();
    let img = decode_image(bytes.get_ref()).unwrap();
    assert_eq!(img.width, 2);
    assert_eq!(img.height, 1);
    assert_eq!(img.pixels, vec![1, 2, 3, 4, 5, 6, 7, 8]);
}

#[test]
fn decode_image_rejects_garbage() {
    let r = decode_image(&[0u8, 1, 2, 3, 4]);
    assert!(matches!(r, Err(OcrError::ImageDecode(_))));
}

fn region(left: u32, top: u32, width: u32, height: u32) -> TextRegion {
    TextRegion { left, top, width, height }
}

#[test]
fn sort_puts_regions_in_reading_order() {
    let regions = vec![region(50, 40, 10, 10), region(5, 40, 10, 10), region(30, 2, 10, 10), region(30, 2, 10, 8)];
    let sorted = sort_reading_order(&regions);
    assert_eq!(
        sorted,
        vec![region(30, 2, 10, 8), region(30, 2, 10, 10), region(5, 40, 10, 10), region(50, 40, 10, 10)]
    );
    assert!(sort_reading_order(&vec![]).is_empty());
}

#[test]
fn reading_order_is_an_option() {
    // both boxes reach the top edge once widened; the right one starts higher
    let mut map = vec![0u8; 64 * 32];
    for y in 3..=10usize {
        for x in 25..=35usize {
            map[y * 64 + x] = 255;
        }
    }
    for y in 5..=12usize {
        for x in 2..=12usize {
            map[y * 64 + x] = 255;
        }
    }
    let found = find_text_rect(&map, 40, 30, DetectorParams::default()).unwrap();
    assert_eq!(found, vec![region(17, 0, 23, 18), region(0, 0, 20, 20)]);
    let ordered = DetectorParams { reading_order: true, ..DetectorParams::default() };
    let sorted = find_text_rect(&map, 40, 30, ordered).unwrap();
    assert_eq!(sorted, vec![region(0, 0, 20, 20), region(17, 0, 23, 18)]);
}

#[test]
fn text_img_crops_each_region() {
    let img = rgba(40, 30);
    let mut map = vec![0u8; 64 * 32];
    for y in 5..=14usize {
        for x in 10..=19usize {
            map[y * 64 + x] = 255;
        }
    }
    let crops = find_text_img(&img, &map, DetectorParams::default()).unwrap();
    assert_eq!(crops.len(), 1);
    assert_eq!((crops[0].width, crops[0].height), (25, 22));
    assert_eq!(&crops[0].pixels[0..4], &[2, 0, 2, 255]);
}

#[test]
fn decode_image_rejects_empty_input() {
    assert!(matches!(decode_image(&[]), Err(OcrError::ImageDecode(_))));
}
