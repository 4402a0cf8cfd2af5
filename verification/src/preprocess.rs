use vstd::prelude::*;
use crate::error::{AppError, ErrorKind};
use crate::imaging::{decode_rgb8, lanczos3_resized, resize_rgb_lanczos3, rgb8_decoded};

verus! {

/// The sizes involved in preparing one image: the size of the returned depth
/// map (`output_*`), the model input size (`target_*`) and the size of the
/// image inside the zero-padded model input (`infer_*`).
#[derive(Debug, Clone, Copy, PartialEq, Eq, Structural)]
pub struct PreprocessMeta {
    pub output_width: u32,
    pub output_height: u32,
    pub target_width: u32,
    pub target_height: u32,
    pub infer_width: u32,
    pub infer_height: u32,
}

/// An RGB image: `data` holds three bytes per pixel, row by row.
pub struct RgbPixels {
    pub width: u32,
    pub height: u32,
    pub data: Vec<u8>,
}

impl RgbPixels {
    pub open spec fn wf(&self) -> bool {
        self.data@.len() == self.width * self.height * 3
    }
}

/// A prepared model input: the image scaled into the target size and padded
/// with black, and the sizes that produced it (the app turns the pixels into the
/// normalised `f32` tensor).
pub struct PreprocessOutput {
    pub padded: RgbPixels,
    pub meta: PreprocessMeta,
}

/// Byte `i` of a `tw`-wide canvas onto which an `sw` x `sh` RGB image `src` is
/// placed at the top-left corner; the rest of the canvas is black.
pub open spec fn canvas_byte(sw: nat, sh: nat, src: Seq<u8>, tw: nat, i: nat) -> u8 {
    let p = i / 3;
    let c = i % 3;
    let x = p % tw;
    let y = p / tw;
    if x < sw && y < sh {
        src[((y * sw + x) * 3 + c) as int]
    } else {
        0
    }
}

/// A `tw` x `th` black RGB canvas with the `sw` x `sh` image `src` placed at its
/// top-left corner (pixels of the image outside the canvas are dropped).
pub open spec fn padded_canvas(sw: nat, sh: nat, src: Seq<u8>, tw: nat, th: nat) -> Seq<u8> {
    Seq::new(tw * th * 3, |i: int| canvas_byte(sw, sh, src, tw, i as nat))
}

proof fn lemma_pixel_index(x: nat, y: nat, sw: nat, sh: nat, c: nat)
    requires
        x < sw,
        y < sh,
        c < 3,
    ensures
        (y * sw + x) * 3 + c < sw * sh * 3,
{
    assert((y * sw + x) * 3 + c < sw * sh * 3) by (nonlinear_arith)
        requires
            x < sw,
            y < sh,
            c < 3,
    ;
}

/// Channel `c` of pixel `(x, y)` of the canvas is channel `c` of pixel `(x, y)`
/// of the image where the image covers it, and black elsewhere.
pub proof fn lemma_canvas_pixel(sw: nat, sh: nat, src: Seq<u8>, tw: nat, th: nat, x: nat, y: nat, c: nat)
    requires
        x < tw,
        y < th,
        c < 3,
        src.len() == sw * sh * 3,
    ensures
        padded_canvas(sw, sh, src, tw, th).len() == tw * th * 3,
        padded_canvas(sw, sh, src, tw, th)[((y * tw + x) * 3 + c) as int] == if x < sw && y < sh {
            src[((y * sw + x) * 3 + c) as int]
        } else {
            0u8
        },
{
    let p = y * tw + x;
    let i = p * 3 + c;
    lemma_pixel_index(x, y, tw, th, c);
    vstd::arithmetic::div_mod::lemma_fundamental_div_mod_converse(i as int, 3, p as int, c as int);
    vstd::arithmetic::div_mod::lemma_fundamental_div_mod_converse(p as int, tw as int, y as int, x as int);
    assert(i / 3 == p);
    assert(i % 3 == c);
    assert(p % tw == x);
    assert(p / tw == y);
}

/// Places an RGB image at the top-left corner of a black `tw` x `th` canvas.
pub fn pad_to_canvas(img: &RgbPixels, target_width: u32, target_height: u32) -> (out: RgbPixels)
    requires
        img.wf(),
        target_width as nat * target_height as nat * 3 <= usize::MAX,
    ensures
        out.width == target_width,
        out.height == target_height,
        out.wf(),
        out.data@ == padded_canvas(
            img.width as nat,
            img.height as nat,
            img.data@,
            target_width as nat,
            target_height as nat,
        ),
{
    let tw = target_width as usize;
    let th = target_height as usize;
    let sw = img.width as usize;
    let sh = img.height as usize;
    let n = tw * th * 3;
    assert(n > 0 ==> tw > 0) by (nonlinear_arith)
        requires
            n == tw * th * 3,
    ;
    let ghost spec_out = padded_canvas(sw as nat, sh as nat, img.data@, tw as nat, th as nat);
    let src_len = img.data.len();
    let mut data: Vec<u8> = Vec::with_capacity(n);
    for i in 0..n
        invariant
            n == tw * th * 3,
            src_len == img.data@.len(),
            n > 0 ==> tw > 0,
            sw == img.width,
            sh == img.height,
            img.wf(),
            spec_out == padded_canvas(sw as nat, sh as nat, img.data@, tw as nat, th as nat),
            data@ == spec_out.take(i as int),
    {
        let p = i / 3;
        let c = i % 3;
        let x = p % tw;
        let y = p / tw;
        let v: u8 = if x < sw && y < sh {
            proof {
                lemma_pixel_index(x as nat, y as nat, sw as nat, sh as nat, c as nat);
            }
            img.data[(y * sw + x) * 3 + c]
        } else {
            0
        };
        assert(v == canvas_byte(sw as nat, sh as nat, img.data@, tw as nat, i as nat));
        data.push(v);
        assert(data@ =~= spec_out.take(i + 1));
    }
    assert(spec_out.take(n as int) =~= spec_out);
    RgbPixels { width: target_width, height: target_height, data }
}

/// `s` begins with `p`.
pub open spec fn starts_with(s: Seq<char>, p: Seq<char>) -> bool {
    p.len() <= s.len() && s.take(p.len() as int) == p
}

/// What is made of the decoder's answer (`None` when it reported an error):
/// the width, height and pixels of the image; or the kind and message of the
/// error; or `Err(None)` for a decoder error (the message then names it after
/// `图片解码失败: `).
pub open spec fn decode_outcome(decoded: Option<(u32, u32, Seq<u8>)>) -> Result<
    (u32, u32, Seq<u8>),
    Option<(ErrorKind, Seq<char>)>,
> {
    match decoded {
        None => Err(None),
        Some((w, h, d)) => if w == 0 || h == 0 {
            Err(Some((ErrorKind::ImageDecodeFailed, "图片尺寸为空"@)))
        } else {
            Ok((w, h, d.take(w * h * 3)))
        },
    }
}

/// An image decoded with pixels keeps its size and the first three bytes per
/// pixel of the decoder's buffer, in order; an image without pixels and a
/// decoder error are refused.
pub proof fn lemma_decode_outcome_keeps_pixels(w: u32, h: u32, d: Seq<u8>)
    requires
        d.len() >= w * h * 3,
    ensures
        w > 0 && h > 0 ==> (decode_outcome(Some((w, h, d))) matches Ok((w2, h2, d2)) && w2 == w && h2 == h
            && d2.len() == w * h * 3 && forall|i: int| 0 <= i < d2.len() ==> d2[i] == d[i]),
        w == 0 || h == 0 ==> decode_outcome(Some((w, h, d))) is Err,
        decode_outcome(None) is Err,
{
}

/// The result of decoding agrees with the outcome.
pub open spec fn decoded_as(res: Result<RgbPixels, AppError>, outcome: Result<
    (u32, u32, Seq<u8>),
    Option<(ErrorKind, Seq<char>)>,
>) -> bool {
    match outcome {
        Ok((w, h, d)) => res matches Ok(img) && img.width == w && img.height == h && img.data@ == d,
        Err(Some((kind, msg))) => res matches Err(e) && e.kind() == kind && e.msg() == msg,
        Err(None) => res matches Err(e) && e.kind() == ErrorKind::ImageDecodeFailed && starts_with(
            e.msg(),
            "图片解码失败: "@,
        ),
    }
}

/// The decoder's answer as plain values.
pub open spec fn decoded_view(decoded: &Result<(u32, u32, Vec<u8>), image::ImageError>) -> Option<
    (u32, u32, Seq<u8>),
> {
    match decoded {
        Ok((w, h, d)) => Some((*w, *h, d@)),
        Err(_) => None,
    }
}

/// Turns the decoder's answer into an RGB image: a decoder error and an image
/// without pixels are refused; otherwise the pixels are kept, without any
/// bytes past the last pixel.
pub fn decoded_image(decoded: Result<(u32, u32, Vec<u8>), image::ImageError>) -> (res: Result<
    RgbPixels,
    AppError,
>)
    requires
        decoded matches Ok((w, h, d)) ==> d@.len() >= w * h * 3,
    ensures
        decoded_as(res, decode_outcome(decoded_view(&decoded))),
        res matches Ok(img) ==> img.wf() && img.width > 0 && img.height > 0,
{
    let (w, h, mut data) = match decoded {
        Ok(img) => img,
        Err(e) => {
            let mut m = "图片解码失败: ".to_owned();
            let text = e.to_string();
            m.append(text.as_str());
            proof {
                reveal_strlit("图片解码失败: ");
                assert(m@.take("图片解码失败: "@.len() as int) =~= "图片解码失败: "@);
            }
            return Err(AppError::ImageDecodeFailed(m));
        },
    };
    if w == 0 || h == 0 {
        return Err(AppError::ImageDecodeFailed("图片尺寸为空".to_owned()));
    }
    let ghost decoded_pixels = data@;
    // The decoded buffer is at least as long as its pixels, so their count fits in `usize`.
    assert(w as nat * h as nat * 3 <= data@.len());
    let buffer_len = data.len();
    let pixel_len = (w as usize) * (h as usize) * 3;
    if pixel_len < buffer_len {
        data.truncate(pixel_len);
    }
    assert(data@ == decoded_pixels.take(w * h * 3));
    Ok(RgbPixels { width: w, height: h, data })
}

/// Decoding ends in one of these ways: an image with pixels, or an
/// image-decoding error (the decoder's, or one for an image without pixels).
pub open spec fn decode_ended_well(res: Result<RgbPixels, AppError>) -> bool {
    match res {
        Ok(img) => img.wf() && img.width > 0 && img.height > 0,
        Err(e) => e.kind() == ErrorKind::ImageDecodeFailed && (starts_with(e.msg(), "图片解码失败: "@)
            || e.msg() == "图片尺寸为空"@),
    }
}

/// `res` is what `decoded_image` makes of an outcome that decoding `bytes` can
/// give.
pub open spec fn decoded_by(bytes: Seq<u8>, res: Result<RgbPixels, AppError>) -> bool {
    exists|outcome: Option<(u32, u32, Seq<u8>)>|
        #[trigger] rgb8_decoded(bytes, outcome) && decoded_as(res, decode_outcome(outcome))
}

/// Checks the requested sizes and decodes the image bytes to RGB. Sizes of zero
/// are refused before anything is decoded; what is made of the decoder's answer
/// is `decoded_image`.
pub fn decode_image(bytes: &[u8], target_width: u32, target_height: u32, max_image_size: u32) -> (res:
    Result<RgbPixels, AppError>)
    ensures
        target_width == 0 || target_height == 0 || max_image_size == 0 ==> (res matches Err(e)
            && e.kind() == ErrorKind::Internal && e.msg() == "图片处理尺寸必须大于 0"@),
        target_width > 0 && target_height > 0 && max_image_size > 0 ==> decode_ended_well(res)
            && decoded_by(bytes@, res),
{
    if target_width == 0 || target_height == 0 || max_image_size == 0 {
        return Err(AppError::Internal("图片处理尺寸必须大于 0".to_owned()));
    }
    let decoded = decode_rgb8(bytes);
    let ghost view = decoded_view(&decoded);
    let res = decoded_image(decoded);
    proof {
        reveal_strlit("图片尺寸为空");
        assert(rgb8_decoded(bytes@, view));
    }
    res
}

/// The sizes chosen for a decoded `img` can be carried out: every side is at
/// least one pixel, the image sits inside the target, and every buffer that the
/// resizing and padding create can be counted in `usize`.
pub open spec fn sizes_fit(img: &RgbPixels, meta: PreprocessMeta) -> bool {
    &&& img.wf()
    &&& img.width > 0
    &&& img.height > 0
    &&& meta.output_width > 0
    &&& meta.output_height > 0
    &&& 1 <= meta.infer_width <= meta.target_width
    &&& 1 <= meta.infer_height <= meta.target_height
    &&& meta.output_width as nat * meta.output_height as nat * 3 <= usize::MAX
    &&& (meta.output_width != img.width || meta.output_height != img.height) ==> img.width as nat
        * meta.output_height as nat * 4 <= usize::MAX
    &&& meta.output_width as nat * meta.infer_height as nat * 4 <= usize::MAX
    &&& meta.target_width as nat * meta.target_height as nat * 3 <= usize::MAX
}

/// No resizing is asked for: the output size is the decoded size and the
/// inference size is the output size.
pub open spec fn keeps_size(w: u32, h: u32, meta: PreprocessMeta) -> bool {
    &&& meta.output_width == w
    &&& meta.output_height == h
    &&& meta.infer_width == w
    &&& meta.infer_height == h
}

/// `mid` is the decoded image at the output size: the decoded pixels when the
/// size is kept, else what the Lanczos3 resize can give for them.
pub open spec fn output_candidate(w: u32, h: u32, d: Seq<u8>, meta: PreprocessMeta, mid: Seq<u8>) -> bool {
    if meta.output_width == w && meta.output_height == h {
        mid == d
    } else {
        lanczos3_resized(w, h, d, meta.output_width, meta.output_height, mid)
    }
}

/// `inner` is the image at the inference size: what the Lanczos3 resize can
/// give for the image at the output size. It has the inference size, and it is
/// the decoded pixels themselves when no resizing is asked for.
pub open spec fn resized_candidate(w: u32, h: u32, d: Seq<u8>, meta: PreprocessMeta, inner: Seq<u8>) -> bool {
    &&& exists|mid: Seq<u8>|
        #[trigger] output_candidate(w, h, d, meta, mid) && lanczos3_resized(
            meta.output_width,
            meta.output_height,
            mid,
            meta.infer_width,
            meta.infer_height,
            inner,
        )
    &&& inner.len() == meta.infer_width * meta.infer_height * 3
    &&& keeps_size(w, h, meta) ==> inner == d
}

/// `padded` is the black `target` canvas with the image, resized to the
/// inference size, at its top-left corner.
pub open spec fn padded_from(w: u32, h: u32, d: Seq<u8>, meta: PreprocessMeta, padded: Seq<u8>) -> bool {
    exists|inner: Seq<u8>|
        #[trigger] resized_candidate(w, h, d, meta, inner) && padded == padded_canvas(
            meta.infer_width as nat,
            meta.infer_height as nat,
            inner,
            meta.target_width as nat,
            meta.target_height as nat,
        )
}

/// The sizes leave room for the later steps: the target is not empty and an
/// image of the output size fits in memory.
pub open spec fn meta_ok(meta: PreprocessMeta) -> bool {
    &&& meta.target_width > 0
    &&& meta.target_height > 0
    &&& meta.output_width > 0
    &&& meta.output_height > 0
    &&& meta.output_width as nat * meta.output_height as nat <= usize::MAX
}

/// Brings a decoded image to the output size (when it differs), scales that to
/// the inference size with Lanczos3, and pads it with black at the right and
/// bottom to the target size. The resampled pixels are those of the image
/// crate; the padding around them is exact.
pub fn prepare_image(img: RgbPixels, meta: PreprocessMeta) -> (out: PreprocessOutput)
    requires
        sizes_fit(&img, meta),
    ensures
        out.meta == meta,
        out.padded.width == meta.target_width,
        out.padded.height == meta.target_height,
        padded_from(img.width, img.height, img.data@, meta, out.padded.data@),
        out.padded.wf(),
        meta_ok(out.meta),
{
    proof {
        lemma_mul_le(meta.infer_width as nat, meta.target_width as nat, meta.infer_height as nat);
        lemma_mul_le(meta.infer_height as nat, meta.target_height as nat, meta.target_width as nat);
    }
    let ghost (img_w, img_h, img_data) = (img.width, img.height, img.data@);
    let work: Vec<u8> = if meta.output_width == img.width && meta.output_height == img.height {
        img.data
    } else {
        resize_rgb_lanczos3(img.width, img.height, img.data.as_slice(), meta.output_width, meta.output_height)
    };
    let resized = resize_rgb_lanczos3(
        meta.output_width,
        meta.output_height,
        work.as_slice(),
        meta.infer_width,
        meta.infer_height,
    );
    let ghost resized_pixels = resized@;
    assert(output_candidate(img_w, img_h, img_data, meta, work@));
    let inner = RgbPixels { width: meta.infer_width, height: meta.infer_height, data: resized };
    let padded = pad_to_canvas(&inner, meta.target_width, meta.target_height);
    assert(resized_candidate(img_w, img_h, img_data, meta, resized_pixels));
    PreprocessOutput { padded, meta }
}

proof fn lemma_mul_le(a: nat, b: nat, c: nat)
    requires
        a <= b,
    ensures
        a * c <= c * b,
{
    assert(a * c <= c * b) by (nonlinear_arith)
        requires
            a <= b,
    ;
}

} // verus!
