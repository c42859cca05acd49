//! The pixel side of CAPTCHA preprocessing: how a source image's
//! dimensions map to the dimensions the recognition model expects, and
//! the decode-and-resample step that produces raw RGB samples of the
//! target shape.

use vstd::prelude::*;
use rgb::FromSlice;

verus! {

/// Largest width or height a baseline JPEG can record (16-bit fields in
/// its frame header), and the bound under which all resize arithmetic
/// here is overflow-free.
pub const MAX_IMAGE_DIM: usize = 65535;

/// Number of channels in the tensor handed to the recognition model.
pub enum ModelChannels {
    Gray,
    RGB,
}

impl ModelChannels {
    /// How many samples one pixel contributes in this layout.
    pub open spec fn spec_count(self) -> int {
        match self {
            ModelChannels::Gray => 1,
            ModelChannels::RGB => 3,
        }
    }

    pub fn count(&self) -> (n: usize)
        ensures
            n == self.spec_count(),
    {
        match self {
            ModelChannels::Gray => 1,
            ModelChannels::RGB => 3,
        }
    }
}

/// `num / den` rounded to the nearest integer, halves away from zero,
/// for non-negative `num` and positive `den`.
pub open spec fn round_div(num: int, den: int) -> int
    recommends
        num >= 0,
        den > 0,
{
    (2 * num + den) / (2 * den)
}

/// How the target shape of the resize step is chosen: one dimension is
/// fixed and the other follows the source's aspect ratio, or both are
/// fixed.
pub enum ResizeParam {
    FixedWidth(usize),
    FixedHeight(usize),
    FixedSize(usize, usize),
}

impl ResizeParam {
    /// The bound the parameter itself must meet for the resize
    /// arithmetic to stay within machine limits: the fixed dimension,
    /// when the other one is derived from the aspect ratio.
    pub open spec fn spec_param_fits(self) -> bool {
        match self {
            ResizeParam::FixedWidth(w) => w <= MAX_IMAGE_DIM,
            ResizeParam::FixedHeight(h) => h <= MAX_IMAGE_DIM,
            ResizeParam::FixedSize(_, _) => true,
        }
    }

    /// The dimensions this parameter needs bounded to stay within
    /// machine arithmetic: the source dimensions, and the fixed
    /// dimension when the other one is derived from the aspect ratio.
    pub open spec fn spec_fits(self, origin: (usize, usize)) -> bool {
        &&& 1 <= origin.0 <= MAX_IMAGE_DIM
        &&& 1 <= origin.1 <= MAX_IMAGE_DIM
        &&& self.spec_param_fits()
    }

    /// Target (width, height) for a source of shape `origin`
    /// (width, height): the fixed dimension is kept and the derived one
    /// is the aspect-ratio match, rounded to the nearest integer.
    pub open spec fn spec_target(self, origin: (usize, usize)) -> (int, int) {
        match self {
            ResizeParam::FixedWidth(w) => (
                w as int,
                round_div(origin.1 as int * w as int, origin.0 as int),
            ),
            ResizeParam::FixedHeight(h) => (
                round_div(origin.0 as int * h as int, origin.1 as int),
                h as int,
            ),
            ResizeParam::FixedSize(w, h) => (w as int, h as int),
        }
    }

    /// Computes the target (width, height) for a source of shape
    /// `image_info` = (width, height).
    pub fn get_param(&self, image_info: (usize, usize)) -> (r: (usize, usize))
        requires
            self.spec_fits(image_info),
        ensures
            (r.0 as int, r.1 as int) == self.spec_target(image_info),
    {
        let (ow, oh) = image_info;
        match self {
            ResizeParam::FixedWidth(w) => {
                let h = derive_dimension(oh, *w, ow);
                (*w, h)
            },
            ResizeParam::FixedHeight(h) => {
                let w = derive_dimension(ow, *h, oh);
                (w, *h)
            },
            ResizeParam::FixedSize(w, h) => (*w, *h),
        }
    }
}

/// `kept * fixed / origin` rounded to the nearest integer: the
/// aspect-ratio match of `kept` when `origin` is scaled to `fixed`.
fn derive_dimension(kept: usize, fixed: usize, origin: usize) -> (r: usize)
    requires
        1 <= origin <= MAX_IMAGE_DIM,
        kept <= MAX_IMAGE_DIM,
        fixed <= MAX_IMAGE_DIM,
    ensures
        r as int == round_div(kept as int * fixed as int, origin as int),
{
    proof {
        assert(kept as int * fixed as int <= 65535 * 65535) by (nonlinear_arith)
            requires
                kept <= 65535,
                fixed <= 65535,
        ;
    }
    let num: u64 = (kept as u64) * (fixed as u64);
    let den: u64 = origin as u64;
    let r64: u64 = (2 * num + den) / (2 * den);
    proof {
        assert(r64 <= num + den / 2) by (nonlinear_arith)
            requires
                den >= 1,
                num >= 0,
                r64 == ((2 * num + den) / (2 * den)) as u64,
        ;
        assert(r64 <= 0xFFFF_FFFFu64);
        assert(usize::MAX >= 0xFFFF_FFFFu64);
    }
    r64 as usize
}

/// Why a preprocessing step could not produce a tensor-ready image.
#[derive(Clone, Copy, Debug, PartialEq, Eq, Structural)]
pub enum ImageError {
    /// The compressed bytes are not a decodable JPEG.
    Decode,
    /// The parameter or the target pixel buffer would exceed
    /// addressable memory.
    TooLarge,
    /// The resampler refused the shapes (a zero target dimension) or
    /// could not allocate.
    Resample,
}

#[verifier::external_type_specification]
#[verifier::external_body]
pub struct ExDecodeErrors(zune_jpeg::errors::DecodeErrors);

#[verifier::external_type_specification]
#[verifier::external_body]
pub struct ExResizeError(resize::Error);

/// Whether a byte stream is a decodable JPEG: decoding is a function
/// of the bytes alone.
pub uninterp spec fn jpeg_ok(bytes: Seq<u8>) -> bool;

/// What `zune_jpeg`'s `decode` returns for a JPEG byte stream: its raw
/// samples, row-major, in the decoder's output layout.
pub uninterp spec fn jpeg_pixels(bytes: Seq<u8>) -> Seq<u8>;

/// What `zune_jpeg`'s frame header carries for a JPEG byte stream: its
/// (width, height).
pub uninterp spec fn jpeg_dims(bytes: Seq<u8>) -> (usize, usize);

/// How many channels `zune_jpeg` decodes a JPEG byte stream to: 3
/// (its default RGB output), or 1 for a single-component grayscale
/// source.
pub uninterp spec fn jpeg_channels(bytes: Seq<u8>) -> usize;

/// Relies on `zune_jpeg::JpegDecoder` (`decode`, `dimensions`,
/// `get_output_colorspace`): decoding is deterministic in the bytes;
/// a successful decode hands back one sample row-major per pixel and
/// channel, the header's dimensions (16-bit fields, at least 1), and
/// the output channel count — 3 (the decoder's default RGB output)
/// except for a single-component grayscale source, which it hands out
/// as 1.
#[verifier::external_body]
fn jpeg_decode(bytes: &Vec<u8>) -> (r: Result<
    (Vec<u8>, usize, usize, usize),
    zune_jpeg::errors::DecodeErrors,
>)
    ensures
        r is Ok <==> jpeg_ok(bytes@),
        r matches Ok((px, w, h, c)) ==> {
            &&& px@ == jpeg_pixels(bytes@)
            &&& (w, h) == jpeg_dims(bytes@)
            &&& c == jpeg_channels(bytes@)
            &&& 1 <= w <= MAX_IMAGE_DIM
            &&& 1 <= h <= MAX_IMAGE_DIM
            &&& (c == 1 || c == 3)
            &&& px@.len() == w * h * c
        },
{
    let mut decoder = zune_jpeg::JpegDecoder::new(bytes.as_slice());
    let px = decoder.decode()?;
    let (w, h) = decoder.dimensions().unwrap();
    let c = decoder.get_output_colorspace().unwrap().num_components();
    Ok((px, w, h, c))
}

/// What the Lanczos3 RGB resampler returns for samples of shape
/// (`sw`, `sh`) brought to shape (`dw`, `dh`).
pub uninterp spec fn lanczos3_rgb(px: Seq<u8>, sw: usize, sh: usize, dw: usize, dh: usize) -> Seq<
    u8,
>;

/// Relies on `resize::Resizer` with `Pixel::RGB8` and
/// `Type::Lanczos3`: resamples an RGB image to the destination shape;
/// a zero dimension or failed allocation is refused as an error.
#[verifier::external_body]
fn resample_rgb(px: &Vec<u8>, sw: usize, sh: usize, dw: usize, dh: usize) -> (r: Result<
    Vec<u8>,
    resize::Error,
>)
    requires
        px@.len() == sw * sh * 3,
        dw * dh * 3 <= usize::MAX,
    ensures
        r matches Ok(out) ==> {
            &&& out@ == lanczos3_rgb(px@, sw, sh, dw, dh)
            &&& out@.len() == dw * dh * 3
        },
{
    let mut resizer = resize::new(sw, sh, dw, dh, resize::Pixel::RGB8, resize::Type::Lanczos3)?;
    let mut out = vec![0u8; dw * dh * 3];
    resizer.resize(px.as_rgb(), out.as_rgb_mut())?;
    Ok(out)
}

/// A grayscale image expanded to RGB: each sample repeated for the
/// three channels.
pub open spec fn spec_triplicate(s: Seq<u8>) -> Seq<u8>
    decreases s.len(),
{
    if s.len() == 0 {
        Seq::empty()
    } else {
        seq![s[0], s[0], s[0]] + spec_triplicate(s.skip(1))
    }
}

proof fn lemma_triplicate_len(s: Seq<u8>)
    ensures
        spec_triplicate(s).len() == 3 * s.len(),
    decreases s.len(),
{
    if s.len() > 0 {
        lemma_triplicate_len(s.skip(1));
    }
}

/// Expands grayscale samples to RGB by repeating each for the three
/// channels.
fn expand_luma_to_rgb(px: &Vec<u8>) -> (r: Vec<u8>)
    requires
        px@.len() * 3 <= usize::MAX,
    ensures
        r@ == spec_triplicate(px@),
        r@.len() == 3 * px@.len(),
{
    let mut out: Vec<u8> = Vec::new();
    let mut i: usize = 0;
    proof {
        assert(px@.skip(0) =~= px@);
        assert(out@ + spec_triplicate(px@) =~= spec_triplicate(px@));
    }
    while i < px.len()
        invariant
            0 <= i <= px@.len(),
            px@.len() * 3 <= usize::MAX,
            out@.len() == 3 * i,
            out@ + spec_triplicate(px@.skip(i as int)) == spec_triplicate(px@),
        decreases px@.len() - i,
    {
        let ghost out0 = out@;
        let v = px[i];
        out.push(v);
        out.push(v);
        out.push(v);
        proof {
            assert(px@.skip(i as int)[0] == px@[i as int]);
            assert(px@.skip(i as int).skip(1) =~= px@.skip(i as int + 1));
            assert(out@ =~= out0 + seq![v, v, v]);
            assert(out@ + spec_triplicate(px@.skip(i as int + 1)) =~= out0 + spec_triplicate(
                px@.skip(i as int),
            ));
        }
        i = i + 1;
    }
    proof {
        assert(px@.skip(px@.len() as int).len() == 0);
        assert(spec_triplicate(px@.skip(px@.len() as int)) =~= Seq::<u8>::empty());
        assert(out@ =~= spec_triplicate(px@));
        lemma_triplicate_len(px@);
    }
    out
}

/// The RGB samples a decoded JPEG hands the resampler: the decoder's
/// own output, expanded to RGB when the source was grayscale.
pub open spec fn spec_source_rgb(bytes: Seq<u8>) -> Seq<u8> {
    if jpeg_channels(bytes) == 3 {
        jpeg_pixels(bytes)
    } else {
        spec_triplicate(jpeg_pixels(bytes))
    }
}

/// Whether a grayscale source can be expanded to RGB within
/// addressable memory (an RGB source needs no expansion).
pub open spec fn spec_expansion_fits(bytes: Seq<u8>) -> bool {
    jpeg_channels(bytes) == 3 || jpeg_dims(bytes).0 * jpeg_dims(bytes).1 * 3 <= usize::MAX
}

/// Whether the target pixel buffer fits in addressable memory.
pub open spec fn spec_target_fits(param: ResizeParam, bytes: Seq<u8>) -> bool {
    let t = param.spec_target(jpeg_dims(bytes));
    t.0 * t.1 <= usize::MAX as int / 3
}

/// Decodes a JPEG and resamples it to the target shape the resize
/// parameter gives for its dimensions. A successful result is raw RGB
/// samples of exactly the target shape: the Lanczos3 resample of the
/// decoded image (expanded to RGB first when the source was
/// grayscale). The result decides: `Decode` comes exactly for
/// undecodable bytes, `TooLarge` exactly for an out-of-range parameter
/// or a buffer beyond memory limits, and `Resample` only when the
/// resampler itself refuses (a zero target dimension, or a failed
/// allocation).
pub fn resize_image(image: &Vec<u8>, param: &ResizeParam) -> (r: Result<
    (Vec<u8>, usize, usize),
    ImageError,
>)
    ensures
        ({
            let dims = jpeg_dims(image@);
            let t = param.spec_target(dims);
            match r {
                Ok((px, w, h)) => {
                    &&& param.spec_param_fits()
                    &&& jpeg_ok(image@)
                    &&& spec_expansion_fits(image@)
                    &&& spec_target_fits(*param, image@)
                    &&& (w as int, h as int) == t
                    &&& px@.len() == w * h * 3
                    &&& px@ == lanczos3_rgb(spec_source_rgb(image@), dims.0, dims.1, w, h)
                },
                Err(ImageError::Decode) => param.spec_param_fits() && !jpeg_ok(image@),
                Err(ImageError::TooLarge) => !param.spec_param_fits() || (jpeg_ok(image@) && (
                !spec_expansion_fits(image@) || !spec_target_fits(*param, image@))),
                Err(ImageError::Resample) => param.spec_param_fits() && jpeg_ok(image@)
                    && spec_expansion_fits(image@) && spec_target_fits(*param, image@),
            }
        }),
{
    let fits = match param {
        ResizeParam::FixedWidth(w) => *w <= MAX_IMAGE_DIM,
        ResizeParam::FixedHeight(h) => *h <= MAX_IMAGE_DIM,
        ResizeParam::FixedSize(_, _) => true,
    };
    if !fits {
        return Err(ImageError::TooLarge);
    }
    let (decoded, sw, sh, channels) = match jpeg_decode(image) {
        Err(_) => {
            return Err(ImageError::Decode);
        },
        Ok(d) => d,
    };
    let rgb = if channels == 3 {
        decoded
    } else {
        // One channel: the decoder hands grayscale out; expand it.
        proof {
            assert(channels == 1);
            assert((sw as u64) * (sh as u64) <= 65535u64 * 65535u64) by (nonlinear_arith)
                requires
                    sw <= 65535,
                    sh <= 65535,
            ;
        }
        let need: u64 = (sw as u64) * (sh as u64) * 3;
        if need > usize::MAX as u64 {
            return Err(ImageError::TooLarge);
        }
        expand_luma_to_rgb(&decoded)
    };
    let (dw, dh) = param.get_param((sw, sh));
    proof {
        assert((dw as u128) * (dh as u128) <= 0xFFFF_FFFF_FFFF_FFFFu128
            * 0xFFFF_FFFF_FFFF_FFFFu128) by (nonlinear_arith)
            requires
                dw as u128 <= 0xFFFF_FFFF_FFFF_FFFFu128,
                dh as u128 <= 0xFFFF_FFFF_FFFF_FFFFu128,
        ;
    }
    if (dw as u128) * (dh as u128) > (usize::MAX as u128) / 3 {
        return Err(ImageError::TooLarge);
    }
    match resample_rgb(&rgb, sw, sh, dw, dh) {
        Err(_) => Err(ImageError::Resample),
        Ok(out) => Ok((out, dw, dh)),
    }
}

} // verus!
