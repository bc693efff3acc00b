//! Text detection around the detection network: the padded input planes,
//! and the text regions read off the network's probability map.
use vstd::prelude::*;

use crate::error::OcrError;
use crate::geometry::{get_pad_length, padded};
use crate::raster::{area, crop, is_crop, lemma_cell_in_grid, lemma_grid_cell, RasterImage, TextRegion};

verus! {

/// Tuning of region extraction; the defaults match the trained networks.
#[derive(Clone, Copy, Debug, PartialEq, Eq, Structural)]
pub struct DetectorParams {
    /// Map values strictly above this belong to text.
    pub threshold: u8,
    /// Pixels added on every side of a contour's bounding box.
    pub margin: u32,
    /// Regions whose width or height is at most this are dropped as noise.
    pub min_side: u32,
    /// Sort the regions top to bottom, then left to right, instead of
    /// keeping the order in which the contours were found.
    pub reading_order: bool,
}

impl Default for DetectorParams {
    fn default() -> (r: Self)
        ensures
            r.threshold == 200,
            r.margin == 8,
            r.min_side == 5,
            !r.reading_order,
    {
        DetectorParams { threshold: 200, margin: 8, min_side: 5, reading_order: false }
    }
}

/// Input of the detection network before normalisation: one plane per colour
/// channel, each `padded_width * padded_height` cells row by row. A cell
/// holds the raw channel value of an image pixel, or `None` in the padding,
/// which the network sees as zero.
#[derive(Clone, Debug)]
pub struct DetectorInput {
    pub width: u32,
    pub height: u32,
    pub padded_width: u32,
    pub padded_height: u32,
    pub red: Vec<Option<u8>>,
    pub green: Vec<Option<u8>>,
    pub blue: Vec<Option<u8>>,
}

/// Channel `c` of pixel `(x, y)` of `img`, or `None` outside the image.
pub open spec fn sample(img: RasterImage, c: int, x: int, y: int) -> Option<u8> {
    if 0 <= x < img.width && 0 <= y < img.height {
        Some(img.channel(x, y, c))
    } else {
        None
    }
}

/// Channel `c` of `img` laid out on a `pw` x `ph` grid, the image in its
/// top-left corner.
pub open spec fn plane_of(img: RasterImage, c: int, pw: int, ph: int) -> Seq<Option<u8>> {
    Seq::new((pw * ph) as nat, |i: int| sample(img, c, i % pw, i / pw))
}

/// The sizes that `preprocess` can lay out in memory.
pub open spec fn fits_detector(width: u32, height: u32) -> bool {
    &&& width <= 0x7fff_ffff
    &&& height <= 0x7fff_ffff
    &&& padded(width as nat) * padded(height as nat) <= usize::MAX
}

/// Whether a `width` x `height` image can be laid out for the detector.
pub fn check_fits(width: u32, height: u32) -> (r: bool)
    ensures
        r == fits_detector(width, height),
{
    if width > 0x7fff_ffff || height > 0x7fff_ffff {
        return false;
    }
    let pw = get_pad_length(width);
    let ph = get_pad_length(height);
    area(pw, ph) <= usize::MAX as u128
}

fn channel_plane(img: &RasterImage, c: usize, pw: u32, ph: u32) -> (r: Vec<Option<u8>>)
    requires
        img.wf(),
        c < 3,
        img.width <= pw,
        img.height <= ph,
        pw * ph <= usize::MAX,
    ensures
        r@ == plane_of(*img, c as int, pw as int, ph as int),
{
    let n = pw as usize * ph as usize;
    let w = img.width as usize;
    let h = img.height as usize;
    let total = img.pixels.len();
    let mut plane: Vec<Option<u8>> = Vec::new();
    let mut i: usize = 0;
    while i < n
        invariant
            img.wf(),
            c < 3,
            n == pw * ph,
            w == img.width,
            h == img.height,
            w <= pw,
            h <= ph,
            total == img.pixels@.len(),
            i <= n,
            plane@.len() == i,
            forall|j: int| 0 <= j < i ==> #[trigger] plane@[j] == sample(*img, c as int, j % (pw as int), j / (pw as int)),
        decreases n - i,
    {
        proof {
            lemma_grid_cell(i as int, pw as int, ph as int);
        }
        let x = i % (pw as usize);
        let y = i / (pw as usize);
        if x < w && y < h {
            proof {
                lemma_cell_in_grid(x as int, y as int, w as int, h as int);
                assert(4 * (y * w + x) + c < total) by (nonlinear_arith)
                    requires
                        y * w + x < w * h,
                        total == 4 * (w as int) * (h as int),
                        c < 3,
                ;
            }
            plane.push(Some(img.pixels[4 * (y * w + x) + c]));
        } else {
            plane.push(None);
        }
        i += 1;
    }
    assert(plane@ =~= plane_of(*img, c as int, pw as int, ph as int));
    plane
}

/// Lays the image out for the detection network: each side is padded to the
/// next multiple of 32, and each channel plane holds the image's own pixels
/// in its top-left corner and `None` in the padding.
pub fn preprocess(img: &RasterImage) -> (r: DetectorInput)
    requires
        img.wf(),
        fits_detector(img.width, img.height),
    ensures
        r.width == img.width,
        r.height == img.height,
        r.padded_width == padded(img.width as nat),
        r.padded_height == padded(img.height as nat),
        r.red@ == plane_of(*img, 0, r.padded_width as int, r.padded_height as int),
        r.green@ == plane_of(*img, 1, r.padded_width as int, r.padded_height as int),
        r.blue@ == plane_of(*img, 2, r.padded_width as int, r.padded_height as int),
{
    let pw = get_pad_length(img.width);
    let ph = get_pad_length(img.height);
    let red = channel_plane(img, 0, pw, ph);
    let green = channel_plane(img, 1, pw, ph);
    let blue = channel_plane(img, 2, pw, ph);
    DetectorInput {
        width: img.width,
        height: img.height,
        padded_width: pw,
        padded_height: ph,
        red,
        green,
        blue,
    }
}

/// The part of a row-major map `pw` cells wide that covers a `w` x `h` image
/// in its top-left corner.
pub open spec fn mask_of(map: Seq<u8>, pw: int, w: int, h: int) -> Seq<u8> {
    Seq::new((w * h) as nat, |i: int| map[(i / w) * pw + i % w])
}

/// Reads the detector's 8-bit probability map back over the image's own
/// pixels, dropping the padding.
pub fn crop_map(map: &Vec<u8>, pw: u32, w: u32, h: u32) -> (r: Vec<u8>)
    requires
        w <= pw,
        map@.len() >= pw * h,
        w * h <= usize::MAX,
    ensures
        r@ == mask_of(map@, pw as int, w as int, h as int),
{
    let n = w as usize * h as usize;
    let total = map.len();
    let mut mask: Vec<u8> = Vec::new();
    let mut i: usize = 0;
    while i < n
        invariant
            n == w * h,
            w <= pw,
            map@.len() >= pw * h,
            total == map@.len(),
            i <= n,
            mask@.len() == i,
            forall|j: int| 0 <= j < i ==> #[trigger] mask@[j] == map@[(j / (w as int)) * pw + j % (w as int)],
        decreases n - i,
    {
        proof {
            lemma_grid_cell(i as int, w as int, h as int);
            lemma_cell_in_grid(i as int % (w as int), i as int / (w as int), pw as int, h as int);
        }
        let x = i % (w as usize);
        let y = i / (w as usize);
        mask.push(map[y * (pw as usize) + x]);
        i += 1;
    }
    assert(mask@ =~= mask_of(map@, pw as int, w as int, h as int));
    mask
}

/// One border of a bright region of a mask: its pixels `(x, y)`, and the
/// index of the border that encloses it, if any.
#[derive(Clone, Debug)]
pub struct Contour {
    pub points: Vec<(u32, u32)>,
    pub parent: Option<usize>,
}

/// The borders that `imageproc` finds in a `width` x `height` mask for the
/// pixels above `threshold`, in the order it finds them: each as its points
/// and the index of its parent border.
pub uninterp spec fn contours_of(mask: Seq<u8>, width: u32, height: u32, threshold: u8) -> Seq<
    (Seq<(u32, u32)>, Option<usize>),
>;

/// Relies on `imageproc::contours::find_contours_with_threshold` (Suzuki and
/// Abe's border following) for the borders of the pixels strictly above
/// `threshold`, each with the index of its parent border in the result.
/// A border starts only at a pixel above `threshold`, so a mask without one
/// has none. It casts pixel coordinates to `i32`,
/// hence the bound on the sides.
#[verifier::external_body]
fn find_contours(mask: &Vec<u8>, width: u32, height: u32, threshold: u8) -> (r: Vec<Contour>)
    requires
        mask@.len() == width * height,
        width <= 0x7fff_ffff,
        height <= 0x7fff_ffff,
    ensures
        r@.len() == contours_of(mask@, width, height, threshold).len(),
        forall|i: int|
            0 <= i < r@.len() ==> (#[trigger] r@[i]).points@ == contours_of(
                mask@,
                width,
                height,
                threshold,
            )[i].0 && r@[i].parent == contours_of(mask@, width, height, threshold)[i].1,
        blank(mask@, threshold) ==> r@.len() == 0,
{
    match image::GrayImage::from_raw(width, height, mask.clone()) {
        Some(img) => imageproc::contours::find_contours_with_threshold::<u32>(&img, threshold)
            .into_iter()
            .map(|c| Contour { points: c.points.into_iter().map(|p| (p.x, p.y)).collect(), parent: c.parent })
            .collect(),
        None => Vec::new(),
    }
}

/// No cell of `mask` is above `threshold`.
pub open spec fn blank(mask: Seq<u8>, threshold: u8) -> bool {
    forall|i: int| 0 <= i < mask.len() ==> #[trigger] mask[i] <= threshold
}

/// What the library sees of a list of contours.
pub open spec fn contour_views(cs: Seq<Contour>) -> Seq<(Seq<(u32, u32)>, Option<usize>)> {
    cs.map_values(|c: Contour| (c.points@, c.parent))
}

pub open spec fn min_u32(a: u32, b: u32) -> u32 {
    if a <= b {
        a
    } else {
        b
    }
}

pub open spec fn max_u32(a: u32, b: u32) -> u32 {
    if a >= b {
        a
    } else {
        b
    }
}

/// Smallest and largest coordinates of a non-empty list of points, as
/// `(x_min, y_min, x_max, y_max)`.
pub open spec fn bounds(pts: Seq<(u32, u32)>) -> (u32, u32, u32, u32)
    decreases pts.len(),
{
    if pts.len() <= 1 {
        (pts[0].0, pts[0].1, pts[0].0, pts[0].1)
    } else {
        let b = bounds(pts.drop_last());
        let p = pts.last();
        (min_u32(b.0, p.0), min_u32(b.1, p.1), max_u32(b.2, p.0), max_u32(b.3, p.1))
    }
}

/// The box `b` widened by `m` on every side, with its top-left corner
/// clamped at `(0, 0)` and its bottom-right corner at `(w, h)`.
pub open spec fn expanded(b: (u32, u32, u32, u32), w: u32, h: u32, m: u32) -> TextRegion {
    let left: int = if b.0 >= m { b.0 - m } else { 0 };
    let top: int = if b.1 >= m { b.1 - m } else { 0 };
    let right: int = if b.2 + m <= w { b.2 + m } else { w as int };
    let bottom: int = if b.3 + m <= h { b.3 + m } else { h as int };
    TextRegion {
        left: left as u32,
        top: top as u32,
        width: (if right > left { right - left } else { 0 }) as u32,
        height: (if bottom > top { bottom - top } else { 0 }) as u32,
    }
}

/// A region large enough not to be noise.
pub open spec fn kept(r: TextRegion, min_side: u32) -> bool {
    r.width > min_side && r.height > min_side
}

/// The text regions that the contours `cs` of a `w` x `h` mask give, in
/// the contours' order: one for each contour without a parent whose
/// expanded bounding box is not noise.
pub open spec fn regions_of(
    cs: Seq<(Seq<(u32, u32)>, Option<usize>)>,
    w: u32,
    h: u32,
    p: DetectorParams,
) -> Seq<TextRegion>
    decreases cs.len(),
{
    if cs.len() == 0 {
        seq![]
    } else {
        let prev = regions_of(cs.drop_last(), w, h, p);
        let c = cs.last();
        let r = expanded(bounds(c.0), w, h, p.margin);
        if c.1 is None && c.0.len() > 0 && kept(r, p.min_side) {
            prev.push(r)
        } else {
            prev
        }
    }
}

proof fn lemma_expanded_within(b: (u32, u32, u32, u32), w: u32, h: u32, m: u32)
    requires
        expanded(b, w, h, m).width > 0,
        expanded(b, w, h, m).height > 0,
    ensures
        expanded(b, w, h, m).within(w as int, h as int),
{
    let left: int = if b.0 >= m { b.0 - m } else { 0 };
    let right: int = if b.2 + m <= w { b.2 + m } else { w as int };
    let top: int = if b.1 >= m { b.1 - m } else { 0 };
    let bottom: int = if b.3 + m <= h { b.3 + m } else { h as int };
    assert(right > left);
    assert(bottom > top);
    assert(expanded(b, w, h, m).left == left);
    assert(expanded(b, w, h, m).width == right - left);
    assert(expanded(b, w, h, m).top == top);
    assert(expanded(b, w, h, m).height == bottom - top);
}

/// Every region that comes out of a mask lies inside it and is larger than
/// noise on both sides.
pub proof fn lemma_regions_contained(
    cs: Seq<(Seq<(u32, u32)>, Option<usize>)>,
    w: u32,
    h: u32,
    p: DetectorParams,
)
    ensures
        forall|k: int|
            0 <= k < regions_of(cs, w, h, p).len() ==> (#[trigger] regions_of(cs, w, h, p)[k]).within(
                w as int,
                h as int,
            ) && kept(regions_of(cs, w, h, p)[k], p.min_side),
    decreases cs.len(),
{
    if cs.len() > 0 {
        lemma_regions_contained(cs.drop_last(), w, h, p);
        let r = expanded(bounds(cs.last().0), w, h, p.margin);
        let prev = regions_of(cs.drop_last(), w, h, p);
        let all = regions_of(cs, w, h, p);
        if kept(r, p.min_side) {
            lemma_expanded_within(bounds(cs.last().0), w, h, p.margin);
        }
        assert forall|k: int| 0 <= k < all.len() implies (#[trigger] all[k]).within(w as int, h as int)
            && kept(all[k], p.min_side) by {
            if k < prev.len() {
                assert(all[k] == prev[k]);
            }
        }
    }
}

/// A contour that has a parent, such as the border of a hole inside a
/// glyph, adds no region wherever it stands among the others.
pub proof fn lemma_nested_contour_adds_no_region(
    cs: Seq<(Seq<(u32, u32)>, Option<usize>)>,
    i: int,
    c: (Seq<(u32, u32)>, Option<usize>),
    w: u32,
    h: u32,
    p: DetectorParams,
)
    requires
        0 <= i <= cs.len(),
        c.1 is Some,
    ensures
        regions_of(cs.insert(i, c), w, h, p) == regions_of(cs, w, h, p),
    decreases cs.len(),
{
    let all = cs.insert(i, c);
    if i == cs.len() {
        assert(all.drop_last() =~= cs);
    } else {
        lemma_nested_contour_adds_no_region(cs.drop_last(), i, c, w, h, p);
        assert(all.drop_last() =~= cs.drop_last().insert(i, c));
        assert(all.last() == cs.last());
    }
}

fn bounding_rect(points: &Vec<(u32, u32)>) -> (r: Option<(u32, u32, u32, u32)>)
    ensures
        points@.len() == 0 ==> r is None,
        points@.len() > 0 ==> r == Some(bounds(points@)),
{
    if points.len() == 0 {
        return None;
    }
    let mut b = (points[0].0, points[0].1, points[0].0, points[0].1);
    let mut i: usize = 1;
    assert(points@.take(1) =~= seq![points@[0]]);
    while i < points.len()
        invariant
            1 <= i <= points@.len(),
            b == bounds(points@.take(i as int)),
        decreases points@.len() - i,
    {
        let p = points[i];
        assert(points@.take(i + 1).drop_last() =~= points@.take(i as int));
        b = (
            if p.0 < b.0 { p.0 } else { b.0 },
            if p.1 < b.1 { p.1 } else { b.1 },
            if p.0 > b.2 { p.0 } else { b.2 },
            if p.1 > b.3 { p.1 } else { b.3 },
        );
        i += 1;
    }
    assert(points@.take(points@.len() as int) =~= points@);
    Some(b)
}

fn expand(b: (u32, u32, u32, u32), w: u32, h: u32, p: DetectorParams) -> (r: Option<TextRegion>)
    ensures
        r == (if kept(expanded(b, w, h, p.margin), p.min_side) {
            Some(expanded(b, w, h, p.margin))
        } else {
            None
        }),
{
    let m = p.margin;
    let left: u32 = if b.0 >= m { b.0 - m } else { 0 };
    let top: u32 = if b.1 >= m { b.1 - m } else { 0 };
    let right: u64 = if b.2 as u64 + m as u64 <= w as u64 { b.2 as u64 + m as u64 } else { w as u64 };
    let bottom: u64 = if b.3 as u64 + m as u64 <= h as u64 { b.3 as u64 + m as u64 } else { h as u64 };
    let width: u32 = if right > left as u64 { (right - left as u64) as u32 } else { 0 };
    let height: u32 = if bottom > top as u64 { (bottom - top as u64) as u32 } else { 0 };
    if width > p.min_side && height > p.min_side {
        Some(TextRegion { left, top, width, height })
    } else {
        None
    }
}

/// Turns the contours of a `w` x `h` mask into text regions: holes and other
/// nested borders are skipped, each remaining bounding box is widened by the
/// margin and clamped to the image, and boxes that stay at or under the
/// minimum side are dropped. Regions keep the contours' order.
pub fn regions_from_contours(contours: &Vec<Contour>, w: u32, h: u32, p: DetectorParams) -> (r: Vec<
    TextRegion,
>)
    ensures
        r@ == regions_of(contour_views(contours@), w, h, p),
        forall|k: int|
            0 <= k < r@.len() ==> (#[trigger] r@[k]).within(w as int, h as int) && kept(r@[k], p.min_side),
{
    let mut out: Vec<TextRegion> = Vec::new();
    let mut i: usize = 0;
    while i < contours.len()
        invariant
            i <= contours@.len(),
            out@ == regions_of(contour_views(contours@.take(i as int)), w, h, p),
        decreases contours@.len() - i,
    {
        let c = &contours[i];
        assert(contour_views(contours@.take(i + 1)).drop_last() =~= contour_views(contours@.take(i as int)));
        assert(contour_views(contours@.take(i + 1)).last() == (c.points@, c.parent));
        if c.parent.is_none() {
            match bounding_rect(&c.points) {
                Some(b) => {
                    match expand(b, w, h, p) {
                        Some(region) => out.push(region),
                        None => {},
                    }
                },
                None => {},
            }
        }
        i += 1;
    }
    assert(contours@.take(contours@.len() as int) =~= contours@);
    proof {
        lemma_regions_contained(contour_views(contours@), w, h, p);
    }
    out
}

/// Text regions of a `w` x `h` mask, in the order in which its contours
/// are found: only outer contours count, so a hole inside a glyph never
/// yields a region of its own.
pub fn find_box(mask: &Vec<u8>, w: u32, h: u32, p: DetectorParams) -> (r: Vec<TextRegion>)
    requires
        mask@.len() == w * h,
        w <= 0x7fff_ffff,
        h <= 0x7fff_ffff,
    ensures
        r@ == regions_of(contours_of(mask@, w, h, p.threshold), w, h, p),
        forall|k: int|
            0 <= k < r@.len() ==> (#[trigger] r@[k]).within(w as int, h as int) && kept(r@[k], p.min_side),
        blank(mask@, p.threshold) ==> r@.len() == 0,
{
    let contours = find_contours(mask, w, h, p.threshold);
    assert(contour_views(contours@) =~= contours_of(mask@, w, h, p.threshold));
    assert(contours@.len() == 0 ==> contour_views(contours@) =~= Seq::empty());
    regions_from_contours(&contours, w, h, p)
}

/// `a` comes no later than `b` in reading order: by top edge, then left
/// edge, then height, then width.
pub open spec fn reads_before(a: TextRegion, b: TextRegion) -> bool {
    a.top < b.top || (a.top == b.top && (a.left < b.left || (a.left == b.left && (a.height < b.height
        || (a.height == b.height && a.width <= b.width)))))
}

/// The regions run in reading order.
pub open spec fn in_reading_order(s: Seq<TextRegion>) -> bool {
    forall|i: int, j: int| 0 <= i < j < s.len() ==> reads_before(#[trigger] s[i], #[trigger] s[j])
}

/// `v` is `found` as the parameters ask: in detector order, or sorted into
/// reading order.
pub open spec fn arranged(v: Seq<TextRegion>, found: Seq<TextRegion>, p: DetectorParams) -> bool {
    if p.reading_order {
        v.to_multiset() == found.to_multiset() && in_reading_order(v)
    } else {
        v == found
    }
}

fn reads_before_exec(a: TextRegion, b: TextRegion) -> (r: bool)
    ensures
        r == reads_before(a, b),
{
    a.top < b.top || (a.top == b.top && (a.left < b.left || (a.left == b.left && (a.height < b.height
        || (a.height == b.height && a.width <= b.width)))))
}

/// The same regions sorted into reading order, top to bottom, then left
/// to right.
pub fn sort_reading_order(regions: &Vec<TextRegion>) -> (r: Vec<TextRegion>)
    ensures
        r@.to_multiset() == regions@.to_multiset(),
        in_reading_order(r@),
{
    let mut out: Vec<TextRegion> = Vec::new();
    let mut i: usize = 0;
    assert(regions@.take(0) =~= Seq::<TextRegion>::empty());
    while i < regions.len()
        invariant
            i <= regions@.len(),
            out@.to_multiset() == regions@.take(i as int).to_multiset(),
            in_reading_order(out@),
        decreases regions@.len() - i,
    {
        let r = regions[i];
        let mut pos: usize = 0;
        while pos < out.len() && reads_before_exec(out[pos], r)
            invariant
                pos <= out@.len(),
                in_reading_order(out@),
                forall|k: int| 0 <= k < pos ==> reads_before(#[trigger] out@[k], r),
            decreases out@.len() - pos,
        {
            pos += 1;
        }
        let ghost before = out@;
        out.insert(pos, r);
        assert(regions@.take(i + 1) =~= regions@.take(i as int).push(r));
        proof {
            vstd::seq_lib::to_multiset_insert(before, pos as int, r);
            vstd::seq_lib::to_multiset_build(regions@.take(i as int), r);
        }
        assert forall|a: int, b: int| 0 <= a < b < out@.len() implies reads_before(
            #[trigger] out@[a],
            #[trigger] out@[b],
        ) by {
            if b < pos {
            } else if b == pos {
            } else if a < pos {
            } else if a == pos {
                assert(!reads_before(before[pos as int], r));
                assert(reads_before(before[pos as int], before[b - 1]) || pos as int == b - 1);
            } else {
                assert(out@[a] == before[a - 1]);
                assert(out@[b] == before[b - 1]);
            }
        }
        i += 1;
    }
    assert(regions@.take(regions@.len() as int) =~= regions@);
    out
}

/// Text regions of a `width` x `height` image from the detection network's
/// output scaled to 8 bits: a row-major map over the padded image, read back
/// over the image's own pixels only. A map of another size than the padded
/// image is a tensor error.
pub fn find_text_rect(map: &Vec<u8>, width: u32, height: u32, p: DetectorParams) -> (r: Result<
    Vec<TextRegion>,
    OcrError,
>)
    requires
        fits_detector(width, height),
    ensures
        r is Err <==> map@.len() != padded(width as nat) * padded(height as nat),
        r matches Err(e) ==> e is Tensor,
        r matches Ok(v) ==> arranged(
            v@,
            regions_of(
                contours_of(
                    mask_of(map@, padded(width as nat) as int, width as int, height as int),
                    width,
                    height,
                    p.threshold,
                ),
                width,
                height,
                p,
            ),
            p,
        ),
        r is Ok && blank(
            mask_of(map@, padded(width as nat) as int, width as int, height as int),
            p.threshold,
        ) ==> r->Ok_0@.len() == 0,
        r matches Ok(v) ==> forall|k: int|
            0 <= k < v@.len() ==> (#[trigger] v@[k]).within(width as int, height as int) && kept(
                v@[k],
                p.min_side,
            ),
{
    let pw = get_pad_length(width);
    let ph = get_pad_length(height);
    if map.len() != pw as usize * ph as usize {
        return Err(OcrError::Tensor(String::from_str("detection map does not match the padded image")));
    }
    proof {
        assert(width * height <= pw * ph) by (nonlinear_arith)
            requires
                width <= pw,
                height <= ph,
        ;
        assert(pw * height <= pw * ph) by (nonlinear_arith)
            requires
                height <= ph,
        ;
    }
    let mask = crop_map(map, pw, width, height);
    let found = find_box(&mask, width, height, p);
    if p.reading_order {
        let sorted = sort_reading_order(&found);
        proof {
            assert forall|k: int| 0 <= k < sorted@.len() implies (#[trigger] sorted@[k]).within(
                width as int,
                height as int,
            ) && kept(sorted@[k], p.min_side) by {
                vstd::seq_lib::to_multiset_contains(sorted@, sorted@[k]);
                vstd::seq_lib::to_multiset_contains(found@, sorted@[k]);
                assert(sorted@.contains(sorted@[k]));
            }
            if found@.len() == 0 {
                vstd::seq_lib::to_multiset_len(found@);
                vstd::seq_lib::to_multiset_len(sorted@);
            }
        }
        Ok(sorted)
    } else {
        Ok(found)
    }
}

/// The text regions of `img` cut out of it, in detector order, from the
/// detection network's 8-bit map over the padded image.
pub fn find_text_img(img: &RasterImage, map: &Vec<u8>, p: DetectorParams) -> (r: Result<
    Vec<RasterImage>,
    OcrError,
>)
    requires
        img.wf(),
        fits_detector(img.width, img.height),
    ensures
        r is Err <==> map@.len() != padded(img.width as nat) * padded(img.height as nat),
        r matches Err(e) ==> e is Tensor,
        r matches Ok(crops) ==> exists|regions: Seq<TextRegion>|
            {
                &&& arranged(
                    regions,
                    regions_of(
                        contours_of(
                            mask_of(map@, padded(img.width as nat) as int, img.width as int, img.height as int),
                            img.width,
                            img.height,
                            p.threshold,
                        ),
                        img.width,
                        img.height,
                        p,
                    ),
                    p,
                )
                &&& crops@.len() == regions.len()
                &&& forall|k: int| 0 <= k < crops@.len() ==> is_crop(*img, regions[k], #[trigger] crops@[k])
            },
{
    let regions = find_text_rect(map, img.width, img.height, p)?;
    let mut crops: Vec<RasterImage> = Vec::new();
    let mut i: usize = 0;
    while i < regions.len()
        invariant
            img.wf(),
            i <= regions@.len(),
            crops@.len() == i,
            forall|k: int| 0 <= k < regions@.len() ==> (#[trigger] regions@[k]).within(img.width as int, img.height as int),
            forall|k: int| 0 <= k < i ==> is_crop(*img, regions@[k], #[trigger] crops@[k]),
        decreases regions@.len() - i,
    {
        crops.push(crop(img, regions[i]));
        i += 1;
    }
    assert(crops@.len() == regions@.len());
    Ok(crops)
}

} // verus!
