use hanzi_reader::det::DetectorParams;
use hanzi_reader::error::OcrError;
use hanzi_reader::pipeline::{OcrAction, OcrRun, Stage};
use hanzi_reader::raster::RasterImage;
use hanzi_reader::rec::CtcStep;

const DICT: &str = "a\nb\nc\n";

fn gray(w: u32, h: u32) -> RasterImage {
    RasterImage { width: w, height: h, pixels: vec![128u8; (w * h * 4) as usize] }
}

/// A padded 64 x 32 map for a 40 x 30 image, text in the given boxes.
fn map_with(rects: &[(usize, usize, usize, usize)]) -> Vec<u8> {
    let mut map = vec![0u8; 64 * 32];
    for &(x0, y0, x1, y1) in rects {
        for y in y0..=y1 {
            for x in x0..=x1 {
                map[y * 64 + x] = 255;
            }
        }
    }
    map
}

fn steps(classes: &[usize]) -> Vec<CtcStep> {
    classes.iter().map(|&class| CtcStep { class, accepted: true }).collect()
}

/// Drives a run on a 40 x 30 image with the given detector map and
/// recogniser outputs, in the order the run asks for them.
fn drive(map: Vec<u8>, outputs: Vec<Result<Vec<CtcStep>, OcrError>>) -> (Result<String, OcrError>, usize) {
    let (mut run, mut action) = OcrRun::on_image(gray(40, 30), DetectorParams::default());
    let mut outputs = outputs.into_iter();
    let mut asked = 0;
    let mut map = Some(map);
    loop {
        action = match action {
            OcrAction::LoadDetector => run.detector_loaded(Ok(())),
            OcrAction::LoadRecognizer => run.recognizer_loaded(Ok(DICT.to_string())),
            OcrAction::ReadImage => panic!("image was given"),
            OcrAction::Detect(input) => {
                assert_eq!(input.padded_width, 64);
                assert_eq!(input.padded_height, 32);
                run.detected(Ok(map.take().unwrap()))
            }
            OcrAction::Recognize(crop) => {
                assert!(crop.pixels.len() == (crop.width * crop.height * 4) as usize);
                asked += 1;
                run.recognized(outputs.next().unwrap())
            }
            OcrAction::Finish(r) => return (r, asked),
        };
    }
}

#[test]
fn missing_detector_fails_before_decoding() {
    let (mut run, action) = OcrRun::on_bytes(DetectorParams::default());
    assert!(matches!(action, OcrAction::LoadDetector));
    let action = run.detector_loaded(Err("no such file".to_string()));
    match action {
        OcrAction::Finish(Err(OcrError::ModelLoad(m))) => assert_eq!(m, "no such file"),
        other => panic!("unexpected {:?}", other),
    }
    assert_eq!(run.stage, Stage::Finished);
    assert!(run.image.is_none());
}

#[test]
fn missing_recognizer_fails_before_decoding() {
    let (mut run, _) = OcrRun::on_bytes(DetectorParams::default());
    assert!(matches!(run.detector_loaded(Ok(())), OcrAction::LoadRecognizer));
    let action = run.recognizer_loaded(Err("dict.txt missing".to_string()));
    assert!(matches!(action, OcrAction::Finish(Err(OcrError::ModelLoad(_)))));
    assert!(run.image.is_none());
}

#[test]
fn bytes_run_reads_and_decodes_after_loading() {
    let (mut run, _) = OcrRun::on_bytes(DetectorParams::default());
    run.detector_loaded(Ok(()));
    assert!(matches!(run.recognizer_loaded(Ok(DICT.to_string())), OcrAction::ReadImage));
    let action = run.image_read(Ok(vec![1, 2, 3]));
    assert!(matches!(action, OcrAction::Finish(Err(OcrError::ImageDecode(_)))));
}

#[test]
fn bytes_run_detects_decoded_image() {
    let src = image::RgbaImage::from_raw(3, 2, vec![9u8; 24]).unwrap();
    let mut bytes = std::io::Cursor::new(Vec::new());
    src.write_to(&mut bytes, image::ImageFormat::Png).unwrap();
    let (mut run, _) = OcrRun::on_bytes(DetectorParams::default());
    run.detector_loaded(Ok(()));
    run.recognizer_loaded(Ok(DICT.to_string()));
    match run.image_read(Ok(bytes.into_inner())) {
        OcrAction::Detect(input) => {
            assert_eq!((input.width, input.height), (3, 2));
            assert_eq!(input.red[0], Some(9));
            assert_eq!(input.red[3], None);
        }
        other => panic!("unexpected {:?}", other),
    }
    assert!(matches!(run.detected(Ok(vec![0u8; 32 * 32])), OcrAction::Finish(Ok(ref s)) if s.is_empty()));
}

#[test]
fn malformed_given_image_is_decode_error() {
    let bad = RasterImage { width: 4, height: 4, pixels: vec![0u8; 10] };
    let (mut run, _) = OcrRun::on_image(bad, DetectorParams::default());
    run.detector_loaded(Ok(()));
    let action = run.recognizer_loaded(Ok(DICT.to_string()));
    assert!(matches!(action, OcrAction::Finish(Err(OcrError::ImageDecode(_)))));
}

#[test]
fn blank_map_gives_empty_text() {
    let (r, asked) = drive(map_with(&[]), vec![]);
    assert_eq!(r, Ok(String::new()));
    assert_eq!(asked, 0);
}

#[test]
fn texts_are_joined_in_detector_order() {
    let map = map_with(&[(2, 2, 12, 8), (20, 18, 30, 26)]);
    let (r, asked) = drive(map, vec![Ok(steps(&[1, 1, 0, 2])), Ok(steps(&[3, 0, 3]))]);
    assert_eq!(asked, 2);
    assert_eq!(r, Ok("abcc".to_string()));
}

#[test]
fn same_inputs_give_same_text() {
    let map = map_with(&[(2, 2, 12, 8), (20, 18, 30, 26)]);
    let first = drive(map.clone(), vec![Ok(steps(&[1, 2])), Ok(steps(&[3]))]);
    let second = drive(map, vec![Ok(steps(&[1, 2])), Ok(steps(&[3]))]);
    assert_eq!(first, second);
    assert_eq!(first.0, Ok("abc".to_string()));
}

#[test]
fn failing_middle_region_fails_whole_run() {
    let map = map_with(&[(2, 2, 10, 6), (2, 14, 10, 18), (2, 24, 10, 28)]);
    let outputs = vec![
        Ok(steps(&[1])),
        Err(OcrError::Inference("run failed".to_string())),
        Ok(steps(&[2])),
    ];
    let (r, asked) = drive(map, outputs);
    assert_eq!(asked, 2);
    assert_eq!(r, Err(OcrError::Inference("run failed".to_string())));
}

#[test]
fn detection_failure_ends_run() {
    let (mut run, _) = OcrRun::on_image(gray(40, 30), DetectorParams::default());
    run.detector_loaded(Ok(()));
    run.recognizer_loaded(Ok(DICT.to_string()));
    let action = run.detected(Err(OcrError::Inference("bad input".to_string())));
    assert!(matches!(action, OcrAction::Finish(Err(OcrError::Inference(_)))));
}

#[test]
fn wrong_map_size_is_tensor_error() {
    let (mut run, _) = OcrRun::on_image(gray(40, 30), DetectorParams::default());
    run.detector_loaded(Ok(()));
    run.recognizer_loaded(Ok(DICT.to_string()));
    let action = run.detected(Ok(vec![0u8; 40 * 30]));
    assert!(matches!(action, OcrAction::Finish(Err(OcrError::Tensor(_)))));
}
