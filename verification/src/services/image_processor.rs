//! Size-bounded resizing of images: the dimension arithmetic, the schedule of
//! attempts, and the processor that drives the image codec through it.

use vstd::prelude::*;
use vstd::arithmetic::div_mod::{lemma_div_is_ordered, lemma_div_multiples_vanish, lemma_fundamental_div_mod, lemma_mod_pos_bound};
use vstd::arithmetic::mul::{lemma_mul_inequality, lemma_mul_is_commutative};
use vstd::string::*;
use crate::error::ImageResizeError;
use crate::services::codec::{decode_image, decoded_height, decoded_width, image_error_text, jpeg_error_text, jpeg_of, loads, resize_triangle, write_jpeg, ResizedImage};

verus! {

/// The box `max_width` x `max_height` already holds the original image: the scale
/// factor `min(max_width / original_width, max_height / original_height)` is at
/// least one (a ratio over a zero side counts as unbounded).
pub open spec fn fits_within(original_width: u32, original_height: u32, max_width: u32, max_height: u32) -> bool {
    max_width >= original_width && max_height >= original_height
}

/// The width ratio `max_width / original_width` is the smaller of the two ratios,
/// so it is the one that decides the scale factor.
pub open spec fn width_decides(original_width: u32, original_height: u32, max_width: u32, max_height: u32) -> bool {
    original_width > 0 && (original_height == 0 || max_width * original_height <= max_height * original_width)
}

/// The dimensions of the original scaled by `min(max_width / original_width,
/// max_height / original_height)`, rounded down, when that factor is below one;
/// the original dimensions otherwise (an image is never enlarged).
pub open spec fn scaled_dimensions(original_width: u32, original_height: u32, max_width: u32, max_height: u32) -> (u32, u32) {
    if fits_within(original_width, original_height, max_width, max_height) {
        (original_width, original_height)
    } else if width_decides(original_width, original_height, max_width, max_height) {
        (max_width, (original_height * max_width / (original_width as int)) as u32)
    } else {
        ((original_width * max_height / (original_height as int)) as u32, max_height)
    }
}

proof fn lemma_floor_div(a: int, c: int)
    requires
        a >= 0,
        c > 0,
    ensures
        a / c >= 0,
        (a / c) * c <= a,
        a < (a / c + 1) * c,
{
    lemma_fundamental_div_mod(a, c);
    lemma_mod_pos_bound(a, c);
    lemma_mul_is_commutative(c, a / c);
    assert(a / c >= 0) by (nonlinear_arith)
        requires a >= 0, c > 0, a == c * (a / c) + a % c, a % c < c;
    assert((a / c + 1) * c == (a / c) * c + c) by (nonlinear_arith);
}

/// In the branch where the width decides and the image does not fit, the box is
/// narrower than the image.
proof fn lemma_width_branch(ow: u32, oh: u32, mw: u32, mh: u32)
    requires
        !fits_within(ow, oh, mw, mh),
        width_decides(ow, oh, mw, mh),
    ensures
        mw < ow,
        (oh * mw / (ow as int)) <= oh,
        (oh * mw / (ow as int)) <= mh,
        (oh * mw / (ow as int)) * ow <= oh * mw,
        oh * mw < (oh * mw / (ow as int) + 1) * ow,
{
    if mw >= ow {
        assert(mh < oh);
        assert(mh * ow < oh * ow) by (nonlinear_arith)
            requires mh < oh, ow > 0;
        assert(mw * oh >= ow * oh) by (nonlinear_arith)
            requires mw >= ow;
        assert(false);
    }
    lemma_floor_div(oh * mw, ow as int);
    let q = oh * mw / (ow as int);
    assert(q <= oh) by (nonlinear_arith)
        requires q * ow <= oh * mw, mw < ow, ow > 0, oh >= 0, q >= 0;
    if oh > 0 {
        assert(q <= mh) by (nonlinear_arith)
            requires q * ow <= oh * mw, mw * oh <= mh * ow, ow > 0;
    }
}

/// In the branch where the height decides and the image does not fit, the box is
/// lower than the image.
proof fn lemma_height_branch(ow: u32, oh: u32, mw: u32, mh: u32)
    requires
        !fits_within(ow, oh, mw, mh),
        !width_decides(ow, oh, mw, mh),
    ensures
        oh > 0,
        mh < oh,
        (ow * mh / (oh as int)) <= ow,
        (ow * mh / (oh as int)) <= mw,
        (ow * mh / (oh as int)) * oh <= ow * mh,
        ow * mh < (ow * mh / (oh as int) + 1) * oh,
{
    if ow == 0 {
        assert(mh < oh);
    } else {
        assert(oh > 0);
        assert(mw * oh > mh * ow);
        if mh >= oh {
            assert(mw < ow);
            assert(mw * oh < ow * oh) by (nonlinear_arith)
                requires mw < ow, oh > 0;
            assert(mh * ow >= oh * ow) by (nonlinear_arith)
                requires mh >= oh;
            assert(false);
        }
    }
    lemma_floor_div(ow * mh, oh as int);
    let q = ow * mh / (oh as int);
    assert(q <= ow) by (nonlinear_arith)
        requires q * oh <= ow * mh, mh < oh, oh > 0, ow >= 0, q >= 0;
    if ow > 0 {
        assert(q <= mw) by (nonlinear_arith)
            requires q * oh <= ow * mh, mw * oh > mh * ow, oh > 0;
    } else {
        assert(q == 0);
    }
}

/// Computes the dimensions to resize to so that the image fits within
/// `max_width` x `max_height` while keeping its aspect ratio; it never enlarges.
pub fn calculate_dimensions(original_width: u32, original_height: u32, max_width: u32, max_height: u32) -> (res: (u32, u32))
    ensures
        res == scaled_dimensions(original_width, original_height, max_width, max_height),
{
    let ow = original_width as u64;
    let oh = original_height as u64;
    let mw = max_width as u64;
    let mh = max_height as u64;
    if max_width >= original_width && max_height >= original_height {
        return (original_width, original_height);
    }
    assert(mw * oh <= u64::MAX && mh * ow <= u64::MAX) by (nonlinear_arith)
        requires mw <= u32::MAX, oh <= u32::MAX, mh <= u32::MAX, ow <= u32::MAX;
    if original_width > 0 && (original_height == 0 || mw * oh <= mh * ow) {
        proof {
            lemma_width_branch(original_width, original_height, max_width, max_height);
        }
        assert(oh * mw <= u64::MAX) by (nonlinear_arith)
            requires mw <= u32::MAX, oh <= u32::MAX;
        let h = oh * mw / ow;
        (max_width, h as u32)
    } else {
        proof {
            lemma_height_branch(original_width, original_height, max_width, max_height);
        }
        assert(ow * mh <= u64::MAX) by (nonlinear_arith)
            requires mh <= u32::MAX, ow <= u32::MAX;
        let w = ow * mh / oh;
        (w as u32, max_height)
    }
}

/// An image is never enlarged, and when it does not already fit the box the result
/// fits the box; when it fits, it is left as it is.
pub proof fn lemma_scaled_dimensions_bounded(original_width: u32, original_height: u32, max_width: u32, max_height: u32)
    ensures
        ({
            let (w, h) = scaled_dimensions(original_width, original_height, max_width, max_height);
            &&& w <= original_width
            &&& h <= original_height
            &&& fits_within(original_width, original_height, max_width, max_height) ==> w == original_width && h == original_height
            &&& !fits_within(original_width, original_height, max_width, max_height) ==> w <= max_width && h <= max_height
        }),
{
    if !fits_within(original_width, original_height, max_width, max_height) {
        if width_decides(original_width, original_height, max_width, max_height) {
            lemma_width_branch(original_width, original_height, max_width, max_height);
        } else {
            lemma_height_branch(original_width, original_height, max_width, max_height);
        }
    }
}

/// The aspect ratio is kept up to the rounding down of one side: `w / h` and
/// `original_width / original_height` differ by less than one pixel on either side,
/// i.e. `w * oh <= ow * (h + 1)` and `h * ow <= oh * (w + 1)`.
pub proof fn lemma_scaled_dimensions_keep_aspect_ratio(original_width: u32, original_height: u32, max_width: u32, max_height: u32)
    ensures
        ({
            let (w, h) = scaled_dimensions(original_width, original_height, max_width, max_height);
            &&& w * original_height <= original_width * (h + 1)
            &&& h * original_width <= original_height * (w + 1)
        }),
{
    let ow = original_width;
    let oh = original_height;
    let (w, h) = scaled_dimensions(ow, oh, max_width, max_height);
    if fits_within(ow, oh, max_width, max_height) {
        assert(w * oh <= ow * (h + 1)) by (nonlinear_arith)
            requires w == ow, h == oh, ow >= 0;
        assert(h * ow <= oh * (w + 1)) by (nonlinear_arith)
            requires w == ow, h == oh, oh >= 0;
    } else if width_decides(ow, oh, max_width, max_height) {
        lemma_width_branch(ow, oh, max_width, max_height);
        assert(w * oh <= ow * (h + 1)) by (nonlinear_arith)
            requires w == max_width, h == oh * max_width / (ow as int), oh * max_width < (oh * max_width / (ow as int) + 1) * ow;
        assert(h * ow <= oh * (w + 1)) by (nonlinear_arith)
            requires w == max_width, h == oh * max_width / (ow as int), (oh * max_width / (ow as int)) * ow <= oh * max_width, oh >= 0;
    } else {
        lemma_height_branch(ow, oh, max_width, max_height);
        assert(h * ow <= oh * (w + 1)) by (nonlinear_arith)
            requires h == max_height, w == ow * max_height / (oh as int), ow * max_height < (ow * max_height / (oh as int) + 1) * oh;
        assert(w * oh <= ow * (h + 1)) by (nonlinear_arith)
            requires h == max_height, w == ow * max_height / (oh as int), (ow * max_height / (oh as int)) * oh <= ow * max_height, ow >= 0;
    }
}

/// Scaling is settled after one step: scaling the result again into the same box
/// leaves it unchanged.
pub proof fn lemma_scaled_dimensions_idempotent(original_width: u32, original_height: u32, max_width: u32, max_height: u32)
    ensures
        ({
            let (w, h) = scaled_dimensions(original_width, original_height, max_width, max_height);
            scaled_dimensions(w, h, max_width, max_height) == (w, h)
        }),
{
    lemma_scaled_dimensions_bounded(original_width, original_height, max_width, max_height);
}



/// `a <= b / c` (rounded down) whenever `a * c <= b`.
proof fn lemma_le_floor_div(a: int, b: int, c: int)
    requires
        c > 0,
        a * c <= b,
    ensures
        a <= b / c,
{
    lemma_div_is_ordered(a * c, b, c);
    lemma_mul_is_commutative(a, c);
    lemma_div_multiples_vanish(a, c);
}

/// For an image with two nonzero sides, each side of the scaled size is the least of
/// the original side, the box side, and the side that the other box side allows.
proof fn lemma_scaled_dimensions_as_min(ow: u32, oh: u32, mw: u32, mh: u32)
    requires
        ow > 0,
        oh > 0,
    ensures
        ({
            let (w, h) = scaled_dimensions(ow, oh, mw, mh);
            let wl = ow * mh / (oh as int);
            let hl = oh * mw / (ow as int);
            &&& w <= ow && w <= mw && w <= wl
            &&& (w == ow || w == mw || w == wl)
            &&& h <= oh && h <= mh && h <= hl
            &&& (h == oh || h == mh || h == hl)
        }),
{
    let wl = ow * mh / (oh as int);
    let hl = oh * mw / (ow as int);
    if fits_within(ow, oh, mw, mh) {
        lemma_mul_inequality(oh as int, mh as int, ow as int);
        lemma_mul_is_commutative(oh as int, ow as int);
        lemma_mul_is_commutative(mh as int, ow as int);
        lemma_le_floor_div(ow as int, ow * mh, oh as int);
        lemma_mul_inequality(ow as int, mw as int, oh as int);
        lemma_mul_is_commutative(mw as int, oh as int);
        lemma_le_floor_div(oh as int, oh * mw, ow as int);
    } else if width_decides(ow, oh, mw, mh) {
        lemma_width_branch(ow, oh, mw, mh);
        lemma_mul_is_commutative(mh as int, ow as int);
        lemma_le_floor_div(mw as int, ow * mh, oh as int);
        lemma_le_floor_div(hl, oh * mw, ow as int);
    } else {
        lemma_height_branch(ow, oh, mw, mh);
        assert(mh * ow < mw * oh);
        lemma_mul_is_commutative(mw as int, oh as int);
        lemma_le_floor_div(mh as int, oh * mw, ow as int);
        lemma_mul_is_commutative(mh as int, ow as int);
        assert(wl * oh <= ow * mh);
        if wl >= mw {
            lemma_mul_inequality(mw as int, wl, oh as int);
            assert(false);
        }
    }
}

/// A larger box never gives a smaller image: for an image with two nonzero sides,
/// each side of the scaled size grows (weakly) with each side of the box.
pub proof fn lemma_scaled_dimensions_monotone(ow: u32, oh: u32, mw1: u32, mh1: u32, mw2: u32, mh2: u32)
    requires
        ow > 0,
        oh > 0,
        mw1 <= mw2,
        mh1 <= mh2,
    ensures
        scaled_dimensions(ow, oh, mw1, mh1).0 <= scaled_dimensions(ow, oh, mw2, mh2).0,
        scaled_dimensions(ow, oh, mw1, mh1).1 <= scaled_dimensions(ow, oh, mw2, mh2).1,
{
    lemma_scaled_dimensions_as_min(ow, oh, mw1, mh1);
    lemma_scaled_dimensions_as_min(ow, oh, mw2, mh2);
    lemma_mul_inequality(mh1 as int, mh2 as int, ow as int);
    lemma_mul_is_commutative(mh1 as int, ow as int);
    lemma_mul_is_commutative(mh2 as int, ow as int);
    lemma_div_is_ordered(ow * mh1, ow * mh2, oh as int);
    lemma_mul_inequality(mw1 as int, mw2 as int, oh as int);
    lemma_mul_is_commutative(mw1 as int, oh as int);
    lemma_mul_is_commutative(mw2 as int, oh as int);
    lemma_div_is_ordered(oh * mw1, oh * mw2, ow as int);
}

/// How many encodings are tried at most before giving up.
pub const MAX_ATTEMPTS: u32 = 10;

/// The JPEG quality of the first attempt.
pub const INITIAL_QUALITY: u8 = 85;

/// The quality is lowered by this much after an oversized attempt ...
pub const QUALITY_STEP: u8 = 5;

/// ... as long as it is above this floor; from there on the box shrinks instead.
pub const QUALITY_FLOOR: u8 = 60;

/// Shrinking stops, and the image is refused, once a side of the box falls below this.
pub const MIN_DIMENSION: u32 = 100;

/// A side of the box reduced by a tenth, rounded down.
pub open spec fn shrunk(side: u32) -> u32 {
    (side * 9 / 10) as u32
}

/// The box the image is fitted into and the JPEG quality of one encoding attempt.
#[derive(Debug, Clone, Copy, PartialEq, Eq)]
pub struct ResizeSettings {
    pub width: u32,
    pub height: u32,
    pub quality: u8,
}

/// The settings of the first attempt: the configured box, narrowed to the image's
/// own size, at the initial quality.
pub open spec fn initial_settings(original_width: u32, original_height: u32, max_width: u32, max_height: u32) -> ResizeSettings {
    ResizeSettings {
        width: if max_width <= original_width { max_width } else { original_width },
        height: if max_height <= original_height { max_height } else { original_height },
        quality: INITIAL_QUALITY,
    }
}

impl ResizeSettings {
    /// After an oversized attempt at these settings, no further attempt is made:
    /// the quality is already at its floor and the shrunk box would have a side below
    /// the minimum.
    pub open spec fn exhausted(self) -> bool {
        self.quality <= QUALITY_FLOOR && (shrunk(self.width) < MIN_DIMENSION || shrunk(self.height) < MIN_DIMENSION)
    }

    /// The settings of the attempt that follows an oversized one: a lower quality
    /// while it is above the floor, else a box shrunk by a tenth.
    pub open spec fn retried(self) -> ResizeSettings {
        if self.quality > QUALITY_FLOOR {
            ResizeSettings { quality: (self.quality - QUALITY_STEP) as u8, ..self }
        } else {
            ResizeSettings { width: shrunk(self.width), height: shrunk(self.height), ..self }
        }
    }

    /// The settings of the first attempt for an image of the given size.
    pub fn initial(original_width: u32, original_height: u32, max_width: u32, max_height: u32) -> (res: ResizeSettings)
        ensures
            res == initial_settings(original_width, original_height, max_width, max_height),
    {
        ResizeSettings {
            width: if max_width <= original_width { max_width } else { original_width },
            height: if max_height <= original_height { max_height } else { original_height },
            quality: INITIAL_QUALITY,
        }
    }

    /// Decides what follows attempt number `attempts`, made at these settings, whose
    /// encoding of `encoded_size` bytes was too large: either the settings of the
    /// next attempt, or the refusal of the image.
    pub fn after_oversized(&self, attempts: u32, encoded_size: u64) -> (res: Result<ResizeSettings, ImageResizeError>)
        ensures
            self.exhausted() ==> res == Err::<ResizeSettings, ImageResizeError>(
                ImageResizeError::SizeExceeded { attempts, final_size: encoded_size },
            ),
            !self.exhausted() ==> res == Ok::<ResizeSettings, ImageResizeError>(self.retried()),
    {
        if self.quality > QUALITY_FLOOR {
            Ok(ResizeSettings { quality: self.quality - QUALITY_STEP, ..*self })
        } else {
            let width = (self.width as u64 * 9 / 10) as u32;
            let height = (self.height as u64 * 9 / 10) as u32;
            if width < MIN_DIMENSION || height < MIN_DIMENSION {
                Err(ImageResizeError::SizeExceeded { attempts, final_size: encoded_size })
            } else {
                Ok(ResizeSettings { width, height, ..*self })
            }
        }
    }
}

/// The settings of attempt number `k` (counting from one) when every earlier attempt
/// was oversized.
pub open spec fn settings_for_attempt(initial: ResizeSettings, k: nat) -> ResizeSettings
    decreases k,
{
    if k <= 1 {
        initial
    } else {
        settings_for_attempt(initial, (k - 1) as nat).retried()
    }
}

/// How a run of attempts from given settings ends.
pub enum ResizeRun {
    /// An attempt encoded below the limit: its encoding and the size it was resized to.
    Resized { data: Seq<u8>, width: u32, height: u32 },
    /// The encoder failed on the image resized to this size.
    EncodingFailed { width: u32, height: u32 },
    /// The image is refused.
    Refused { attempts: u32, final_size: u64 },
}

/// The run of attempts over the image decoded from `bytes`, from attempt number `k`
/// made at `settings` on: each attempt scales the image into the settings' box and
/// encodes it; the first encoding below `max_file_size` is kept; an oversized one is
/// followed by the next settings, unless they are exhausted, which refuses the image
/// with that encoding's size; after `MAX_ATTEMPTS` attempts the image is refused with
/// its original size.
pub open spec fn resize_run(bytes: Seq<u8>, settings: ResizeSettings, k: nat, max_file_size: u64, original_size: u64) -> ResizeRun
    decreases MAX_ATTEMPTS as nat + 1 - k,
{
    if k > MAX_ATTEMPTS as nat {
        ResizeRun::Refused { attempts: MAX_ATTEMPTS, final_size: original_size }
    } else {
        let (w, h) = scaled_dimensions(decoded_width(bytes), decoded_height(bytes), settings.width, settings.height);
        match jpeg_of(bytes, w, h) {
            None => ResizeRun::EncodingFailed { width: w, height: h },
            Some(e) => if e.len() < max_file_size {
                ResizeRun::Resized { data: e, width: w, height: h }
            } else if settings.exhausted() {
                ResizeRun::Refused { attempts: k as u32, final_size: e.len() as u64 }
            } else {
                resize_run(bytes, settings.retried(), k + 1, max_file_size, original_size)
            },
        }
    }
}

/// The message of an encoding failure of the image decoded from `bytes` and resized
/// to `width` x `height`.
pub open spec fn encoding_failure_message(bytes: Seq<u8>, width: u32, height: u32) -> Seq<char> {
    "Failed to encode image: "@ + jpeg_error_text(bytes, width, height)
}

/// The outcome of an image of `original_size` bytes, at or above the size limit:
/// undecodable bytes are refused as invalid; otherwise the run of attempts from the
/// configured box, narrowed to the decoded size, decides.
pub open spec fn resize_outcome(
    max_width: u32,
    max_height: u32,
    max_file_size: u64,
    original_size: u64,
    bytes: Seq<u8>,
    res: Result<ProcessResult, ImageResizeError>,
) -> bool {
    if !loads(bytes) {
        res matches Err(ImageResizeError::InvalidImage)
    } else {
        let ow = decoded_width(bytes);
        let oh = decoded_height(bytes);
        match resize_run(bytes, initial_settings(ow, oh, max_width, max_height), 1, max_file_size, original_size) {
            ResizeRun::Resized { data, width, height } => res matches Ok(r) && r.data@ == data && r.width == width
                && r.height == height && r.original_width == ow && r.original_height == oh && r.was_resized,
            ResizeRun::EncodingFailed { width, height } => res matches Err(ImageResizeError::ImageError(m))
                && m@ == encoding_failure_message(bytes, width, height),
            ResizeRun::Refused { attempts, final_size } => res == Err::<ProcessResult, ImageResizeError>(
                ImageResizeError::SizeExceeded { attempts, final_size },
            ),
        }
    }
}

/// The outcome of processing an image of `original_size` bytes: below the size
/// limit it is handed back as it is, with its decoded size as both its original and
/// its final size (zero when it does not decode); otherwise it is resized as
/// `resize_outcome` says.
pub open spec fn processed(
    max_width: u32,
    max_height: u32,
    max_file_size: u64,
    bytes: Seq<u8>,
    original_size: u64,
    res: Result<ProcessResult, ImageResizeError>,
) -> bool {
    &&& original_size < max_file_size ==> (res matches Ok(r) && r.data@ == bytes && !r.was_resized
        && r.width == r.original_width && r.height == r.original_height
        && (loads(bytes) ==> r.original_width == decoded_width(bytes) && r.original_height == decoded_height(bytes))
        && (!loads(bytes) ==> r.original_width == 0 && r.original_height == 0))
    &&& original_size >= max_file_size ==> resize_outcome(max_width, max_height, max_file_size, original_size, bytes, res)
}

/// The output of processing one image.
pub struct ProcessResult {
    pub data: Vec<u8>,
    pub width: u32,
    pub height: u32,
    pub original_width: u32,
    pub original_height: u32,
    pub was_resized: bool,
}

/// Shrinks images until their JPEG encoding is below a size limit.
pub struct ImageProcessor {
    max_width: u32,
    max_height: u32,
    max_file_size: u64,
}

impl ImageProcessor {
    /// The width of the box images are fitted into.
    pub closed spec fn box_width(&self) -> u32 {
        self.max_width
    }

    /// The height of the box images are fitted into.
    pub closed spec fn box_height(&self) -> u32 {
        self.max_height
    }

    /// The size, in bytes, that a processed image stays below.
    pub closed spec fn size_limit(&self) -> u64 {
        self.max_file_size
    }

    pub fn new(max_width: u32, max_height: u32, max_file_size: u64) -> (res: Self)
        ensures
            res.box_width() == max_width,
            res.box_height() == max_height,
            res.size_limit() == max_file_size,
    {
        Self { max_width, max_height, max_file_size }
    }

    /// Hands back an image that is already below the size limit as it is, with its
    /// size; otherwise decodes it and tries up to `MAX_ATTEMPTS` JPEG encodings of it,
    /// scaled into a box that starts as the configured one and shrinks once the
    /// quality is at its floor, until one is below the limit.
    pub fn process_image(&self, image_bytes: Vec<u8>, original_size: u64) -> (res: Result<ProcessResult, ImageResizeError>)
        ensures
            processed(self.box_width(), self.box_height(), self.size_limit(), image_bytes@, original_size, res),
    {
        if original_size < self.max_file_size {
            let (width, height) = match decode_image(image_bytes.as_slice()) {
                Some(image) => (image.width(), image.height()),
                None => (0, 0),
            };
            return Ok(ProcessResult {
                data: image_bytes,
                width,
                height,
                original_width: width,
                original_height: height,
                was_resized: false,
            });
        }
        let image = match decode_image(image_bytes.as_slice()) {
            Some(img) => img,
            None => return Err(ImageResizeError::InvalidImage),
        };
        let original_width = image.width();
        let original_height = image.height();
        let ghost bytes = image_bytes@;
        let ghost run = resize_run(
            bytes,
            initial_settings(original_width, original_height, self.max_width, self.max_height),
            1,
            self.max_file_size,
            original_size,
        );
        let mut settings = ResizeSettings::initial(original_width, original_height, self.max_width, self.max_height);
        let mut attempts: u32 = 0;
        while attempts < MAX_ATTEMPTS
            invariant
                attempts <= MAX_ATTEMPTS,
                original_size >= self.max_file_size,
                bytes == image_bytes@,
                loads(bytes),
                run == resize_run(
                    bytes,
                    initial_settings(original_width, original_height, self.max_width, self.max_height),
                    1,
                    self.max_file_size,
                    original_size,
                ),
                image.source() == bytes,
                original_width == decoded_width(bytes),
                original_height == decoded_height(bytes),
                run == resize_run(bytes, settings, attempts as nat + 1, self.max_file_size, original_size),
            decreases MAX_ATTEMPTS - attempts,
        {
            attempts = attempts + 1;
            let (target_width, target_height) = calculate_dimensions(
                original_width,
                original_height,
                settings.width,
                settings.height,
            );
            let resized = resize_triangle(&image, target_width, target_height);
            let encoded = match encode_image(&resized, settings.quality) {
                Ok(bytes) => bytes,
                Err(e) => return Err(e),
            };
            let encoded_size = encoded.len() as u64;
            if encoded_size < self.max_file_size {
                return Ok(ProcessResult {
                    data: encoded,
                    width: target_width,
                    height: target_height,
                    original_width,
                    original_height,
                    was_resized: true,
                });
            }
            match settings.after_oversized(attempts, encoded_size) {
                Ok(next) => settings = next,
                Err(e) => return Err(e),
            }
        }
        Err(ImageResizeError::SizeExceeded { attempts, final_size: original_size })
    }
}

/// Encodes a resized image as JPEG. The quality is not handed to the encoder, which
/// uses its default.
fn encode_image(img: &ResizedImage, _quality: u8) -> (res: Result<Vec<u8>, ImageResizeError>)
    ensures
        match res {
            Ok(v) => jpeg_of(img.source(), img.requested().0, img.requested().1) == Some(v@),
            Err(e) => jpeg_of(img.source(), img.requested().0, img.requested().1) is None
                && (e matches ImageResizeError::ImageError(m)
                && m@ == encoding_failure_message(img.source(), img.requested().0, img.requested().1)),
        },
{
    match write_jpeg(img) {
        Ok(bytes) => Ok(bytes),
        Err(err) => {
            let mut message = String::from_str("Failed to encode image: ");
            let text = image_error_text(&err);
            message.append(text.as_str());
            Err(ImageResizeError::ImageError(message))
        },
    }
}

/// The schedule of attempts: the first six keep the box and lower the quality from
/// 85 by 5 each time down to 60; from the sixth on the quality stays at 60 and each
/// further attempt shrinks the box by a tenth.
pub proof fn lemma_attempt_schedule(original_width: u32, original_height: u32, max_width: u32, max_height: u32, k: nat)
    requires
        k >= 1,
    ensures
        ({
            let initial = initial_settings(original_width, original_height, max_width, max_height);
            let s = settings_for_attempt(initial, k);
            &&& k <= 6 ==> s.width == initial.width && s.height == initial.height && s.quality == 85 - 5 * (k - 1)
            &&& k >= 6 ==> s.quality == QUALITY_FLOOR
            &&& k >= 6 ==> settings_for_attempt(initial, k + 1) == ResizeSettings {
                width: shrunk(s.width),
                height: shrunk(s.height),
                quality: QUALITY_FLOOR,
            }
        }),
    decreases k,
{
    let initial = initial_settings(original_width, original_height, max_width, max_height);
    if k > 1 {
        lemma_attempt_schedule(original_width, original_height, max_width, max_height, (k - 1) as nat);
    }
    assert(settings_for_attempt(initial, k + 1) == settings_for_attempt(initial, k).retried());
}


/// A run never hands back an image larger than its box, nor larger than the decoded
/// image, its encoding is below the limit, and the aspect ratio of the decoded image
/// is kept up to the rounding down of one side.
proof fn lemma_run_within_box(bytes: Seq<u8>, settings: ResizeSettings, k: nat, max_file_size: u64, original_size: u64, bw: u32, bh: u32)
    requires
        settings.width <= bw,
        settings.height <= bh,
    ensures
        resize_run(bytes, settings, k, max_file_size, original_size) matches ResizeRun::Resized { data, width, height }
            ==> {
            let ow = decoded_width(bytes);
            let oh = decoded_height(bytes);
            &&& data.len() < max_file_size
            &&& width <= bw && width <= ow
            &&& height <= bh && height <= oh
            &&& width * oh <= ow * (height + 1)
            &&& height * ow <= oh * (width + 1)
        },
    decreases MAX_ATTEMPTS as nat + 1 - k,
{
    if k <= MAX_ATTEMPTS as nat {
        let ow = decoded_width(bytes);
        let oh = decoded_height(bytes);
        lemma_scaled_dimensions_bounded(ow, oh, settings.width, settings.height);
        lemma_scaled_dimensions_keep_aspect_ratio(ow, oh, settings.width, settings.height);
        let next = settings.retried();
        assert(next.width <= settings.width && next.height <= settings.height);
        lemma_run_within_box(bytes, next, k + 1, max_file_size, original_size, bw, bh);
    }
}

/// Every image the processor hands back is either one reported below the size
/// limit, handed back untouched with its decoded size, or a resized encoding below
/// the limit of the decoded image: no larger than it nor than the configured box,
/// with its aspect ratio kept up to the rounding down of one side.
pub proof fn lemma_processed_within_limits(
    max_width: u32,
    max_height: u32,
    max_file_size: u64,
    bytes: Seq<u8>,
    original_size: u64,
    r: ProcessResult,
)
    requires
        processed(max_width, max_height, max_file_size, bytes, original_size, Ok(r)),
    ensures
        !r.was_resized ==> original_size < max_file_size && r.data@ == bytes && r.width == r.original_width
            && r.height == r.original_height,
        r.was_resized ==> {
            let ow = decoded_width(bytes);
            let oh = decoded_height(bytes);
            &&& loads(bytes)
            &&& r.original_width == ow && r.original_height == oh
            &&& r.data@.len() < max_file_size
            &&& r.width <= max_width && r.width <= ow
            &&& r.height <= max_height && r.height <= oh
            &&& r.width * oh <= ow * (r.height + 1)
            &&& r.height * ow <= oh * (r.width + 1)
        },
{
    if r.was_resized {
        let ow = decoded_width(bytes);
        let oh = decoded_height(bytes);
        lemma_run_within_box(bytes, initial_settings(ow, oh, max_width, max_height), 1, max_file_size, original_size, max_width, max_height);
    }
}

} // verus!
