//! The OCR run of one image, as a state machine. The caller performs each
//! action that a step returns (loading a network, reading the image,
//! running a network) and hands the outcome to the step that the action
//! names, until a `Finish` action carries the result.
use vstd::prelude::*;

use crate::det::{
    arranged, blank, check_fits, contours_of, find_text_rect, fits_detector, mask_of, plane_of, preprocess,
    regions_of, DetectorInput, DetectorParams,
};
use crate::error::OcrError;
use crate::geometry::padded;
use crate::raster::{
    check_wf, crop, decodable, decode_image, decoded_of, is_crop, RasterImage, TextRegion,
};
use crate::rec::{
    classes_in_range, ctc_text, decode_ctc, dictionary_of, parse_dictionary, string_views, CtcStep,
};

verus! {

/// Where a run stands: the outcome it waits for.
#[derive(Clone, Copy, Debug, PartialEq, Eq, Structural)]
pub enum Stage {
    LoadDetector,
    LoadRecognizer,
    ReadImage,
    Detect,
    Recognize,
    Finished,
}

/// What the caller is to do next.
#[derive(Debug)]
pub enum OcrAction {
    /// Load the detection network; answer with `detector_loaded`.
    LoadDetector,
    /// Load the recognition network and read its dictionary file; answer
    /// with `recognizer_loaded`.
    LoadRecognizer,
    /// Fetch the image bytes; answer with `image_read`.
    ReadImage,
    /// Normalise these planes, run the detection network, and scale its
    /// map to 8 bits; answer with `detected`.
    Detect(DetectorInput),
    /// Run the recognition network on this crop; answer with `recognized`.
    Recognize(RasterImage),
    /// The run is over, with this result.
    Finish(Result<String, OcrError>),
}

/// One OCR call in progress.
pub struct OcrRun {
    pub stage: Stage,
    pub params: DetectorParams,
    pub image: Option<RasterImage>,
    pub keys: Vec<String>,
    pub regions: Vec<TextRegion>,
    pub next: usize,
    pub text: String,
    /// The text of each region recognised so far, in detector order.
    pub texts: Ghost<Seq<Seq<char>>>,
    /// The recogniser's output for each region handled so far, in detector
    /// order.
    pub outputs: Ghost<Seq<Seq<CtcStep>>>,
}

/// The text that each recogniser output decodes to with the class table
/// `keys`.
pub open spec fn texts_of(outputs: Seq<Seq<CtcStep>>, keys: Seq<Seq<char>>) -> Seq<Seq<char>> {
    outputs.map_values(|st: Seq<CtcStep>| ctc_text(st, keys))
}

/// The texts `ts` one after another, with nothing between them.
pub open spec fn concat(ts: Seq<Seq<char>>) -> Seq<char>
    decreases ts.len(),
{
    if ts.len() == 0 {
        seq![]
    } else {
        concat(ts.drop_last()) + ts.last()
    }
}

/// `input` is `img` laid out for the detection network.
pub open spec fn lays_out(img: RasterImage, input: DetectorInput) -> bool {
    &&& input.width == img.width
    &&& input.height == img.height
    &&& input.padded_width == padded(img.width as nat)
    &&& input.padded_height == padded(img.height as nat)
    &&& input.red@ == plane_of(img, 0, input.padded_width as int, input.padded_height as int)
    &&& input.green@ == plane_of(img, 1, input.padded_width as int, input.padded_height as int)
    &&& input.blue@ == plane_of(img, 2, input.padded_width as int, input.padded_height as int)
}

/// What follows the arrival of `img`: detection on it, or the end of the
/// run where it is malformed or too large to lay out.
pub open spec fn detection_started(img: RasterImage, stage: Stage, a: OcrAction) -> bool {
    if !img.wf() {
        stage == Stage::Finished && (a matches OcrAction::Finish(Err(e)) && e is ImageDecode)
    } else if !fits_detector(img.width, img.height) {
        stage == Stage::Finished && (a matches OcrAction::Finish(Err(e)) && e is Tensor)
    } else {
        stage == Stage::Detect && (a matches OcrAction::Detect(input) && lays_out(img, input))
    }
}

/// What follows the recognition of region `next`: the next region's crop,
/// or, after the last region, the end of the run with `text`.
pub open spec fn region_requested(run: OcrRun, a: OcrAction) -> bool {
    if run.next < run.regions@.len() {
        run.stage == Stage::Recognize && (a matches OcrAction::Recognize(c) && is_crop(
            run.image->0,
            run.regions@[run.next as int],
            c,
        ))
    } else {
        run.stage == Stage::Finished && (a matches OcrAction::Finish(Ok(s)) && s@ == run.text@)
    }
}

/// The regions that the detector's 8-bit map `map` gives for `img`.
pub open spec fn detected_regions(img: RasterImage, map: Seq<u8>, p: DetectorParams) -> Seq<TextRegion> {
    regions_of(
        contours_of(
            mask_of(map, padded(img.width as nat) as int, img.width as int, img.height as int),
            img.width,
            img.height,
            p.threshold,
        ),
        img.width,
        img.height,
        p,
    )
}

impl OcrRun {
    pub open spec fn wf(&self) -> bool {
        &&& (self.stage == Stage::Detect || self.stage == Stage::Recognize) ==> (self.image matches Some(
            img,
        ) && img.wf() && fits_detector(img.width, img.height))
        &&& self.stage == Stage::ReadImage ==> self.image is None
        &&& self.stage == Stage::Recognize ==> {
            &&& self.next < self.regions@.len() <= usize::MAX
            &&& forall|k: int|
                0 <= k < self.regions@.len() ==> (#[trigger] self.regions@[k]).within(
                    self.image->0.width as int,
                    self.image->0.height as int,
                )
            &&& self.texts@.len() == self.next
            &&& self.text@ == concat(self.texts@)
            &&& self.texts@ == texts_of(self.outputs@, string_views(self.keys@))
        }
    }

    fn fresh(image: Option<RasterImage>, params: DetectorParams) -> (r: OcrRun)
        ensures
            r.stage == Stage::LoadDetector,
            r.image == image,
            r.params == params,
    {
        OcrRun {
            stage: Stage::LoadDetector,
            params,
            image,
            keys: Vec::new(),
            regions: Vec::new(),
            next: 0,
            text: String::new(),
            texts: Ghost(Seq::empty()),
            outputs: Ghost(Seq::empty()),
        }
    }

    /// Starts a run on image bytes that the caller fetches when asked.
    /// The first action loads the detection network.
    pub fn on_bytes(params: DetectorParams) -> (r: (OcrRun, OcrAction))
        ensures
            r.0.wf(),
            r.0.stage == Stage::LoadDetector,
            r.0.image is None,
            r.0.params == params,
            r.1 is LoadDetector,
    {
        (OcrRun::fresh(None, params), OcrAction::LoadDetector)
    }

    /// Starts a run on an image already decoded. The first action loads the
    /// detection network.
    pub fn on_image(img: RasterImage, params: DetectorParams) -> (r: (OcrRun, OcrAction))
        ensures
            r.0.wf(),
            r.0.stage == Stage::LoadDetector,
            r.0.image == Some(img),
            r.0.params == params,
            r.1 is LoadDetector,
    {
        (OcrRun::fresh(Some(img), params), OcrAction::LoadDetector)
    }

    fn finish(&mut self, result: Result<String, OcrError>) -> (a: OcrAction)
        ensures
            final(self).stage == Stage::Finished,
            final(self).params == old(self).params,
            final(self).image == old(self).image,
            final(self).keys == old(self).keys,
            final(self).regions == old(self).regions,
            final(self).next == old(self).next,
            final(self).text == old(self).text,
            final(self).texts == old(self).texts,
            final(self).outputs == old(self).outputs,
            a == OcrAction::Finish(result),
    {
        self.stage = Stage::Finished;
        OcrAction::Finish(result)
    }

    /// Takes the outcome of loading the detection network. A failure ends
    /// the run with a model-load error before the image is read or decoded.
    pub fn detector_loaded(&mut self, loaded: Result<(), String>) -> (a: OcrAction)
        requires
            old(self).wf(),
            old(self).stage == Stage::LoadDetector,
        ensures
            final(self).wf(),
            final(self).image == old(self).image,
            final(self).params == old(self).params,
            loaded is Ok ==> final(self).stage == Stage::LoadRecognizer && a is LoadRecognizer,
            loaded matches Err(m) ==> final(self).stage == Stage::Finished && a == OcrAction::Finish(
                Err(OcrError::ModelLoad(m)),
            ),
    {
        match loaded {
            Ok(()) => {
                self.stage = Stage::LoadRecognizer;
                OcrAction::LoadRecognizer
            },
            Err(m) => self.finish(Err(OcrError::ModelLoad(m))),
        }
    }

    /// Moves to detection on `img`, or ends the run where `img` is malformed
    /// or too large to lay out.
    fn start_detection(&mut self, img: RasterImage) -> (a: OcrAction)
        requires
            old(self).stage != Stage::Finished,
        ensures
            final(self).params == old(self).params,
            final(self).keys == old(self).keys,
            final(self).image == Some(img),
            final(self).wf(),
            detection_started(img, final(self).stage, a),
    {
        let shape_ok = check_wf(&img);
        if shape_ok && check_fits(img.width, img.height) {
            let input = preprocess(&img);
            self.image = Some(img);
            self.stage = Stage::Detect;
            OcrAction::Detect(input)
        } else {
            self.image = Some(img);
            if !shape_ok {
                self.finish(Err(OcrError::ImageDecode(String::from_str("pixel buffer does not match the image size"))))
            } else {
                self.finish(Err(OcrError::Tensor(String::from_str("image too large for the detection buffer"))))
            }
        }
    }

    /// Takes the outcome of loading the recognition network: the text of its
    /// dictionary file, or why it failed. A failure ends the run with a
    /// model-load error before the image is read or decoded.
    pub fn recognizer_loaded(&mut self, loaded: Result<String, String>) -> (a: OcrAction)
        requires
            old(self).wf(),
            old(self).stage == Stage::LoadRecognizer,
        ensures
            final(self).wf(),
            final(self).params == old(self).params,
            loaded matches Err(m) ==> final(self).stage == Stage::Finished && a == OcrAction::Finish(
                Err(OcrError::ModelLoad(m)),
            ),
            loaded matches Ok(dict) ==> string_views(final(self).keys@) == dictionary_of(dict@),
            loaded is Ok && old(self).image is None ==> final(self).stage == Stage::ReadImage
                && a is ReadImage,
            loaded is Ok && old(self).image is Some ==> final(self).image == old(self).image
                && detection_started(old(self).image->0, final(self).stage, a),
    {
        match loaded {
            Err(m) => self.finish(Err(OcrError::ModelLoad(m))),
            Ok(dict) => {
                self.keys = parse_dictionary(dict.as_str());
                let given = self.image.take();
                match given {
                    None => {
                        self.stage = Stage::ReadImage;
                        OcrAction::ReadImage
                    },
                    Some(img) => self.start_detection(img),
                }
            },
        }
    }

    /// Takes the image bytes, or why they could not be fetched, and decodes
    /// them.
    pub fn image_read(&mut self, bytes: Result<Vec<u8>, OcrError>) -> (a: OcrAction)
        requires
            old(self).wf(),
            old(self).stage == Stage::ReadImage,
        ensures
            final(self).wf(),
            final(self).params == old(self).params,
            final(self).keys == old(self).keys,
            bytes matches Err(e) ==> final(self).stage == Stage::Finished && a == OcrAction::Finish(
                Err(e),
            ),
            bytes is Ok && !decodable(bytes->Ok_0@) ==> final(self).stage == Stage::Finished && (
            a matches OcrAction::Finish(Err(e)) && e is ImageDecode),
            bytes is Ok && decodable(bytes->Ok_0@) ==> (final(self).image matches Some(img)
                && decoded_of(bytes->Ok_0@) == Some((img.width, img.height, img.pixels@))
                && detection_started(img, final(self).stage, a)),
            bytes is Ok && bytes->Ok_0@.len() == 0 ==> final(self).stage == Stage::Finished && (
            a matches OcrAction::Finish(Err(e)) && e is ImageDecode),
    {
        match bytes {
            Err(e) => self.finish(Err(e)),
            Ok(b) => match decode_image(b.as_slice()) {
                Err(e) => self.finish(Err(e)),
                Ok(img) => self.start_detection(img),
            },
        }
    }
    /// Asks for the recognition of region `next`, or ends the run with the
    /// texts gathered so far once every region is done.
    fn next_region(&mut self) -> (a: OcrAction)
        requires
            old(self).stage == Stage::Recognize,
            old(self).image matches Some(img) && img.wf() && fits_detector(img.width, img.height),
            old(self).next <= old(self).regions@.len(),
            forall|k: int|
                0 <= k < old(self).regions@.len() ==> (#[trigger] old(self).regions@[k]).within(
                    old(self).image->0.width as int,
                    old(self).image->0.height as int,
                ),
            old(self).texts@.len() == old(self).next,
            old(self).text@ == concat(old(self).texts@),
            old(self).texts@ == texts_of(old(self).outputs@, string_views(old(self).keys@)),
        ensures
            final(self).wf(),
            final(self).image == old(self).image,
            final(self).regions == old(self).regions,
            final(self).keys == old(self).keys,
            final(self).params == old(self).params,
            final(self).next == old(self).next,
            final(self).texts == old(self).texts,
            final(self).outputs == old(self).outputs,
            final(self).text == old(self).text,
            final(self).regions@.len() <= usize::MAX,
            region_requested(*final(self), a),
    {
        if self.next == self.regions.len() {
            let s = self.text.clone();
            return self.finish(Ok(s));
        }
        let region = self.regions[self.next];
        match &self.image {
            Some(img) => {
                let c = crop(img, region);
                OcrAction::Recognize(c)
            },
            None => self.finish(Ok(String::new())),
        }
    }

    /// Takes the detection network's map for the image, scaled to 8 bits,
    /// or why it could not be had, and finds the text regions.
    pub fn detected(&mut self, map: Result<Vec<u8>, OcrError>) -> (a: OcrAction)
        requires
            old(self).wf(),
            old(self).stage == Stage::Detect,
        ensures
            final(self).wf(),
            final(self).params == old(self).params,
            final(self).image == old(self).image,
            final(self).keys == old(self).keys,
            map matches Err(e) ==> final(self).stage == Stage::Finished && a == OcrAction::Finish(
                Err(e),
            ),
            map is Ok && map->Ok_0@.len() != padded(old(self).image->0.width as nat) * padded(
                old(self).image->0.height as nat,
            ) ==> final(self).stage == Stage::Finished && (a matches OcrAction::Finish(Err(e))
                && e is Tensor),
            map is Ok && map->Ok_0@.len() == padded(old(self).image->0.width as nat) * padded(
                old(self).image->0.height as nat,
            ) ==> {
                &&& arranged(
                    final(self).regions@,
                    detected_regions(old(self).image->0, map->Ok_0@, old(self).params),
                    old(self).params,
                )
                &&& final(self).next == 0
                &&& final(self).texts@ == Seq::<Seq<char>>::empty()
                &&& final(self).outputs@ == Seq::<Seq<CtcStep>>::empty()
                &&& final(self).text@ == Seq::<char>::empty()
                &&& region_requested(*final(self), a)
                &&& blank(
                    mask_of(
                        map->Ok_0@,
                        padded(old(self).image->0.width as nat) as int,
                        old(self).image->0.width as int,
                        old(self).image->0.height as int,
                    ),
                    old(self).params.threshold,
                ) ==> final(self).stage == Stage::Finished && (a matches OcrAction::Finish(Ok(s))
                    && s@ == Seq::<char>::empty())
            },
    {
        let m = match map {
            Err(e) => {
                return self.finish(Err(e));
            },
            Ok(m) => m,
        };
        let (width, height) = match &self.image {
            Some(img) => (img.width, img.height),
            None => (0, 0),
        };
        match find_text_rect(&m, width, height, self.params) {
            Err(e) => self.finish(Err(e)),
            Ok(regions) => {
                self.regions = regions;
                self.next = 0;
                self.text = String::new();
                self.texts = Ghost(Seq::empty());
                self.outputs = Ghost(Seq::empty());
                assert(texts_of(self.outputs@, string_views(self.keys@)) =~= Seq::empty());
                self.stage = Stage::Recognize;
                self.next_region()
            },
        }
    }

    /// Takes the recognition network's output for the current region, or
    /// why it failed. Any failure ends the whole run with that error, and
    /// the texts of earlier regions are dropped; otherwise the region's
    /// text is appended, with no separator, to those before it.
    pub fn recognized(&mut self, steps: Result<Vec<CtcStep>, OcrError>) -> (a: OcrAction)
        requires
            old(self).wf(),
            old(self).stage == Stage::Recognize,
        ensures
            final(self).wf(),
            final(self).params == old(self).params,
            final(self).image == old(self).image,
            final(self).regions == old(self).regions,
            final(self).keys == old(self).keys,
            steps matches Err(e) ==> final(self).stage == Stage::Finished && a == OcrAction::Finish(
                Err(e),
            ),
            steps is Ok && !classes_in_range(steps->Ok_0@, old(self).keys@.len() as int)
                ==> final(self).stage == Stage::Finished && (a matches OcrAction::Finish(Err(e))
                && e is Tensor),
            steps is Ok && classes_in_range(steps->Ok_0@, old(self).keys@.len() as int) ==> {
                &&& final(self).texts@ == old(self).texts@.push(
                    ctc_text(steps->Ok_0@, string_views(old(self).keys@)),
                )
                &&& final(self).next == old(self).next + 1
                &&& final(self).text@ == concat(final(self).texts@)
                &&& region_requested(*final(self), a)
                &&& final(self).outputs@ == old(self).outputs@.push(steps->Ok_0@)
                &&& (a is Finish ==> final(self).outputs@.len() == final(self).regions@.len() && (
                a matches OcrAction::Finish(Ok(s)) && s@ == concat(
                    texts_of(final(self).outputs@, string_views(final(self).keys@)),
                )))
            },
    {
        let st = match steps {
            Err(e) => {
                return self.finish(Err(e));
            },
            Ok(st) => st,
        };
        match decode_ctc(&st, &self.keys) {
            Err(e) => self.finish(Err(e)),
            Ok(t) => {
                let ghost before = self.texts@;
                self.text.append(t.as_str());
                self.texts = Ghost(before.push(t@));
                assert(self.texts@.drop_last() =~= before);
                let ghost seen = self.outputs@;
                self.outputs = Ghost(seen.push(st@));
                assert(texts_of(self.outputs@, string_views(self.keys@)) =~= texts_of(
                    seen,
                    string_views(self.keys@),
                ).push(t@));
                self.next = self.next + 1;
                self.next_region()
            },
        }
    }
}

} // verus!
