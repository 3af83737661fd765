//! The transform pipeline: an ordered sequence of Convert/Resize operations
//! applied to raw image bytes, with the pixel-level work delegated to an
//! external codec capability.
use vstd::prelude::*;

use crate::error::Error;
use crate::keys::{Dimension, Format, Height, Width};

verus! {

/// The image formats the byte sniffer can recognize and that the resolver
/// supports; `Other` stands for a recognized but unsupported codec.
#[derive(Clone, Copy, Debug, PartialEq, Eq, Structural)]
pub enum ImageKind {
    Png,
    Jpeg,
    Gif,
    Webp,
    Tiff,
    Bmp,
    Ico,
    Avif,
    Other,
}

/// One step of the pipeline: re-encode to a target format, or scale down to
/// a target dimension.
#[derive(Clone, Copy, Debug, PartialEq)]
pub enum Operation {
    Convert(Format),
    Resize(Dimension),
}

/// What the byte sniffer detects for a byte string: `None` when the magic
/// bytes match no known format. A pure function of the bytes alone.
pub uninterp spec fn sniff_of(file: Seq<u8>) -> Option<ImageKind>;

/// The pixel dimensions (width, height) the decoder reports for a byte
/// string, `None` when the bytes do not decode. A pure function of the bytes.
pub uninterp spec fn dims_of(file: Seq<u8>) -> Option<(u32, u32)>;

/// The bytes produced by decoding `file` and re-encoding it to `to`;
/// `None` when decoding or encoding fails. A pure function of its arguments.
pub uninterp spec fn convert_of(file: Seq<u8>, to: Format) -> Option<Seq<u8>>;

/// The bytes produced by decoding `file`, scaling it down to fit within
/// `w` x `h` preserving aspect ratio, and re-encoding it in the format
/// detected from `file` itself; `None` when any step fails. A pure function
/// of its arguments.
pub uninterp spec fn resize_of(file: Seq<u8>, w: u32, h: u32) -> Option<Seq<u8>>;

/// The sniffed kind that a format's own encoding presents as.
pub open spec fn format_kind(f: Format) -> ImageKind {
    match f {
        Format::Avif => ImageKind::Avif,
        Format::Png => ImageKind::Png,
        Format::Webp => ImageKind::Webp,
    }
}

/// Relies on `image::guess_format`: the guess reads only the magic bytes at
/// the start of the buffer, so it is a function of the bytes alone. Each of
/// its recognized formats maps to one `ImageKind`; formats outside the
/// supported set map to `ImageKind::Other`, an unrecognized buffer to `None`.
#[verifier::external_body]
fn sniff_format(file: &[u8]) -> (r: Option<ImageKind>)
    ensures
        r == sniff_of(file@),
{
    match image::guess_format(file) {
        Err(_) => None,
        Ok(image::ImageFormat::Png) => Some(ImageKind::Png),
        Ok(image::ImageFormat::Jpeg) => Some(ImageKind::Jpeg),
        Ok(image::ImageFormat::Gif) => Some(ImageKind::Gif),
        Ok(image::ImageFormat::WebP) => Some(ImageKind::Webp),
        Ok(image::ImageFormat::Tiff) => Some(ImageKind::Tiff),
        Ok(image::ImageFormat::Bmp) => Some(ImageKind::Bmp),
        Ok(image::ImageFormat::Ico) => Some(ImageKind::Ico),
        Ok(image::ImageFormat::Avif) => Some(ImageKind::Avif),
        Ok(_) => Some(ImageKind::Other),
    }
}

/// Relies on `image::load_from_memory` and `DynamicImage::{width, height}`:
/// decoding is a function of the bytes alone, and the two getters report the
/// decoded image's pixel dimensions. Decode failure maps to `Conversion`.
#[verifier::external_body]
fn decode_dims(file: &[u8]) -> (r: Result<(u32, u32), Error>)
    ensures
        match r {
            Ok(d) => dims_of(file@) == Some(d),
            Err(e) => dims_of(file@) is None && e == Error::Conversion,
        },
{
    match image::load_from_memory(file) {
        Ok(img) => Ok((img.width(), img.height())),
        Err(_) => Err(Error::Conversion),
    }
}

/// Relies on `image::load_from_memory` and `DynamicImage::write_to`: decode
/// `file`, re-encode it to `to`, both deterministic in the bytes and the
/// target format. A successful encode writes the target format's own magic
/// bytes, which `image::guess_format` detects as exactly that format, so
/// the output sniffs as the target. Any failure maps to `Conversion`.
#[verifier::external_body]
fn convert_bytes(file: &[u8], to: Format) -> (r: Result<Vec<u8>, Error>)
    ensures
        match r {
            Ok(v) => convert_of(file@, to) == Some(v@) && sniff_of(v@) == Some(format_kind(to)),
            Err(e) => convert_of(file@, to) is None && e == Error::Conversion,
        },
{
    let target = match to {
        Format::Avif => image::ImageFormat::Avif,
        Format::Png => image::ImageFormat::Png,
        Format::Webp => image::ImageFormat::WebP,
    };
    let img = match image::load_from_memory(file) {
        Ok(img) => img,
        Err(_) => return Err(Error::Conversion),
    };
    let mut out: std::io::Cursor<Vec<u8>> = std::io::Cursor::new(Vec::new());
    match img.write_to(&mut out, target) {
        Ok(()) => Ok(out.into_inner()),
        Err(_) => Err(Error::Conversion),
    }
}

/// Relies on `image::load_from_memory`, `DynamicImage::thumbnail`,
/// `image::guess_format` and `DynamicImage::write_to`: decode `file`, scale
/// it to the largest size fitting within `w` x `h` that keeps the source's
/// aspect ratio, re-encode in the format detected from `file` itself — so
/// the output sniffs the same as the input, and encoding keeps pixel
/// dimensions. All four calls are deterministic in the arguments. The
/// geometry clauses restate `thumbnail`'s scaling: it multiplies both axes
/// by the smaller of the two axis ratios, rounding each to the nearest
/// integer (and to at least one pixel). With the box within the source that
/// ratio is at most one, so the output never exceeds the source; the axis
/// whose ratio is the smaller one — `w * sh <= h * sw`, in integers — comes
/// out exactly as requested, and the other is its aspect-correct partner to
/// within the one rounding step, which the cross-product bounds state. Any
/// failure maps to `Conversion`.
#[verifier::external_body]
fn resize_encode(file: &[u8], w: u32, h: u32) -> (r: Result<Vec<u8>, Error>)
    ensures
        match r {
            Ok(v) => resize_of(file@, w, h) == Some(v@) && sniff_of(v@) == sniff_of(file@)
                && (match (dims_of(file@), dims_of(v@)) {
                (Some(sd), Some(od)) => (w <= sd.0 && h <= sd.1) ==> {
                    &&& od.0 <= sd.0
                    &&& od.1 <= sd.1
                    &&& ((1 <= w && w * sd.1 <= h * sd.0) ==> {
                        &&& od.0 == w
                        &&& od.1 * sd.0 <= w * sd.1 + sd.0
                        &&& w * sd.1 <= od.1 * sd.0 + sd.0
                    })
                    &&& ((1 <= h && h * sd.0 <= w * sd.1) ==> {
                        &&& od.1 == h
                        &&& od.0 * sd.1 <= h * sd.0 + sd.1
                        &&& h * sd.0 <= od.0 * sd.1 + sd.1
                    })
                },
                _ => true,
            }),
            Err(e) => resize_of(file@, w, h) is None && e == Error::Conversion,
        },
{
    let img = match image::load_from_memory(file) {
        Ok(img) => img,
        Err(_) => return Err(Error::Conversion),
    };
    let scaled = img.thumbnail(w, h);
    let format = match image::guess_format(file) {
        Ok(f) => f,
        Err(_) => return Err(Error::Conversion),
    };
    let mut out: std::io::Cursor<Vec<u8>> = std::io::Cursor::new(Vec::new());
    match scaled.write_to(&mut out, format) {
        Ok(()) => Ok(out.into_inner()),
        Err(_) => Err(Error::Conversion),
    }
}

/// Lifts a byte-vector result to its mathematical view.
pub open spec fn bytes_result_view(r: Result<Vec<u8>, Error>) -> Result<Seq<u8>, Error> {
    match r {
        Ok(v) => Ok(v@),
        Err(e) => Err(e),
    }
}

/// What converting to `to` yields: the re-encoded bytes, or `Conversion`
/// when the codec fails.
pub open spec fn spec_convert(input: Seq<u8>, to: Format) -> Result<Seq<u8>, Error> {
    match convert_of(input, to) {
        Some(v) => Ok(v),
        None => Err(Error::Conversion),
    }
}

/// Re-encodes `file` to the format `to`. The result's detected encoded
/// format is `to` itself; only this operation ever changes the encoded
/// format.
pub fn convert(file: &[u8], to: Format) -> (r: Result<Vec<u8>, Error>)
    ensures
        bytes_result_view(r) == spec_convert(file@, to),
        match r {
            Ok(v) => sniff_of(v@) == Some(format_kind(to)),
            _ => true,
        },
{
    convert_bytes(file, to)
}

/// An axis of the target box: the requested value, clamped to the source's
/// — resizing only ever scales down, never up.
pub open spec fn clamp_axis(v: u32, s: u32) -> u32 {
    if v <= s {
        v
    } else {
        s
    }
}

/// The box a resize aims for: each requested axis clamped to the source,
/// each absent axis filled in from the source itself — which is what keeps
/// the aspect ratio at a single given axis.
pub open spec fn target_box(d: Dimension, sw: u32, sh: u32) -> (u32, u32) {
    (
        match d.0 {
            Some(w) => clamp_axis(w.0, sw),
            None => sw,
        },
        match d.1 {
            Some(h) => clamp_axis(h.0, sh),
            None => sh,
        },
    )
}

/// What resizing to `d` yields. The source is decoded first, so undecodable
/// bytes fail with `Conversion`; a request with neither axis fails with
/// `ResizeEmptyDimension`; otherwise the image is scaled to the target box
/// of the request, which never exceeds the source.
pub open spec fn spec_resize(input: Seq<u8>, d: Dimension) -> Result<Seq<u8>, Error> {
    match dims_of(input) {
        None => Err(Error::Conversion),
        Some(sd) => match (d.0, d.1) {
            (None, None) => Err(Error::ResizeEmptyDimension),
            _ => lift_resize(input, target_box(d, sd.0, sd.1).0, target_box(d, sd.0, sd.1).1),
        },
    }
}

/// Lifts the named resize result to a `Result`.
pub open spec fn lift_resize(input: Seq<u8>, w: u32, h: u32) -> Result<Seq<u8>, Error> {
    match resize_of(input, w, h) {
        Some(v) => Ok(v),
        None => Err(Error::Conversion),
    }
}

/// The geometry a successful resize guarantees, wherever the output bytes
/// decode at all: the output never exceeds the source on either axis — a
/// resize never upscales — the output keeps the input's own detected
/// format, and a single-axis request within the source is hit exactly on
/// that axis, with the other axis matching the source's aspect ratio to
/// within one rounding step (the cross-product bounds).
pub open spec fn resize_geometry(out: Seq<u8>, input: Seq<u8>, d: Dimension) -> bool {
    sniff_of(out) == sniff_of(input) && match (dims_of(input), dims_of(out)) {
        (Some(sd), Some(od)) => {
            &&& od.0 <= sd.0
            &&& od.1 <= sd.1
            &&& (match (d.0, d.1) {
                (Some(w), None) => (1 <= w.0 && w.0 <= sd.0) ==> {
                    &&& od.0 == w.0
                    &&& od.1 * sd.0 <= w.0 * sd.1 + sd.0
                    &&& w.0 * sd.1 <= od.1 * sd.0 + sd.0
                },
                (None, Some(h)) => (1 <= h.0 && h.0 <= sd.1) ==> {
                    &&& od.1 == h.0
                    &&& od.0 * sd.1 <= h.0 * sd.0 + sd.1
                    &&& h.0 * sd.0 <= od.0 * sd.1 + sd.1
                },
                _ => true,
            })
        },
        _ => true,
    }
}

/// Scales the image down to the requested dimension. Besides the exact
/// result, the contract carries the downscale guarantees of
/// `resize_geometry`: no upscaling beyond the source, the input's own
/// encoded format kept, a requested single axis hit exactly and the other
/// aspect-correct within rounding.
pub fn resize(file: &[u8], d: &Dimension) -> (r: Result<Vec<u8>, Error>)
    ensures
        bytes_result_view(r) == spec_resize(file@, *d),
        match r {
            Ok(v) => resize_geometry(v@, file@, *d),
            _ => true,
        },
{
    let dims = decode_dims(file);
    match dims {
        Err(e) => Err(e),
        Ok((sw, sh)) => match (d.0, d.1) {
            (None, None) => Err(Error::ResizeEmptyDimension),
            (dw, dh) => {
                let tw = match dw {
                    Some(w) => if w.0 <= sw {
                        w.0
                    } else {
                        sw
                    },
                    None => sw,
                };
                let th = match dh {
                    Some(h) => if h.0 <= sh {
                        h.0
                    } else {
                        sh
                    },
                    None => sh,
                };
                proof {
                    assert((tw, th) == target_box(*d, sw, sh));
                    match (dw, dh) {
                        (Some(_), None) => {
                            assert(tw * sh <= th * sw) by (nonlinear_arith)
                                requires
                                    tw <= sw,
                                    th == sh,
                            ;
                        },
                        (None, Some(_)) => {
                            assert(th * sw <= tw * sh) by (nonlinear_arith)
                                requires
                                    th <= sh,
                                    tw == sw,
                            ;
                        },
                        _ => {},
                    }
                }
                resize_encode(file, tw, th)
            },
        },
    }
}

/// What one pipeline step yields on its input bytes.
pub open spec fn spec_apply(input: Seq<u8>, op: Operation) -> Result<Seq<u8>, Error> {
    match op {
        Operation::Convert(f) => spec_convert(input, f),
        Operation::Resize(d) => spec_resize(input, d),
    }
}

/// The fold of the remaining operations over the bytes produced so far:
/// the first listed operation consumes `current`, each later one the
/// previous step's output; the first failing step's error ends the fold.
pub open spec fn spec_fold(current: Seq<u8>, ops: Seq<Operation>) -> Result<Seq<u8>, Error>
    decreases ops.len(),
{
    if ops.len() == 0 {
        Ok(current)
    } else {
        match spec_apply(current, ops[0]) {
            Ok(next) => spec_fold(next, ops.drop_first()),
            Err(e) => Err(e),
        }
    }
}

/// What the whole pipeline yields: the input unchanged for an empty
/// operation list; otherwise the input must sniff as a recognized image —
/// failing with `Conversion` when it does not — and the operations then
/// fold over it left to right, the first step consuming the input itself
/// and each subsequent step the previous step's output.
pub open spec fn spec_transform(file: Seq<u8>, ops: Seq<Operation>) -> Result<Seq<u8>, Error> {
    if ops.len() == 0 {
        Ok(file)
    } else if sniff_of(file) is None {
        Err(Error::Conversion)
    } else {
        spec_fold(file, ops)
    }
}

/// Applies every operation in order. An empty list returns the input bytes
/// unchanged; otherwise the input is first checked to sniff as a recognized
/// image, the first operation consumes it, each subsequent operation the
/// previous step's output, and each step's failure terminates the pipeline
/// with that step's error.
pub fn transform(file: &Vec<u8>, op: &Vec<Operation>) -> (r: Result<Vec<u8>, Error>)
    ensures
        bytes_result_view(r) == spec_transform(file@, op@),
{
    if op.len() == 0 {
        return Ok(file.clone());
    }
    let sniffed = sniff_format(file.as_slice());
    if sniffed.is_none() {
        return Err(Error::Conversion);
    }
    let mut acc: Vec<u8> = file.clone();
    let mut i: usize = 0;
    proof {
        assert(op@.skip(0) =~= op@);
    }
    while i < op.len()
        invariant
            0 <= i <= op@.len(),
            op@.len() > 0,
            sniff_of(file@) is Some,
            spec_fold(acc@, op@.skip(i as int)) == spec_fold(file@, op@),
        decreases op@.len() - i,
    {
        proof {
            assert(op@.skip(i as int).len() > 0);
            assert(op@.skip(i as int)[0] == op@[i as int]);
            assert(op@.skip(i as int).drop_first() =~= op@.skip(i as int + 1));
        }
        let step = match op[i] {
            Operation::Convert(f) => convert(acc.as_slice(), f),
            Operation::Resize(d) => resize(acc.as_slice(), &d),
        };
        match step {
            Ok(next) => {
                acc = next;
            },
            Err(e) => {
                return Err(e);
            },
        }
        i = i + 1;
    }
    proof {
        assert(op@.skip(i as int) =~= Seq::<Operation>::empty());
    }
    Ok(acc)
}

/// The operations a request's options call for: a conversion first when a
/// format is given, then a resize when at least one axis is given.
pub open spec fn spec_operations(
    format: Option<Format>,
    width: Option<Width>,
    height: Option<Height>,
) -> Seq<Operation> {
    let convert_part: Seq<Operation> = match format {
        Some(f) => seq![Operation::Convert(f)],
        None => Seq::empty(),
    };
    let resize_part: Seq<Operation> = if width is Some || height is Some {
        seq![Operation::Resize(Dimension(width, height))]
    } else {
        Seq::empty()
    };
    convert_part + resize_part
}

/// When both a format and at least one axis are requested, the pipeline is
/// always `[Convert, Resize]`, in that order — format conversion happens
/// before any resize re-encoding, never the other way around.
pub proof fn lemma_operation_order(
    format: Format,
    width: Option<Width>,
    height: Option<Height>,
)
    requires
        width is Some || height is Some,
    ensures
        spec_operations(Some(format), width, height) =~= seq![
            Operation::Convert(format),
            Operation::Resize(Dimension(width, height)),
        ],
{
}

/// A resize with neither axis set always fails with `ResizeEmptyDimension`
/// on any input that decodes at all.
pub proof fn lemma_resize_empty_dimension(input: Seq<u8>)
    requires
        dims_of(input) is Some,
    ensures
        spec_resize(input, Dimension(None, None)) == Err::<Seq<u8>, Error>(
            Error::ResizeEmptyDimension,
        ),
{
}

/// The transform parameters of one request, as they arrive in the query
/// string.
#[derive(Clone, Copy, Debug)]
pub struct ImageOptions {
    pub format: Option<Format>,
    pub width: Option<Width>,
    pub height: Option<Height>,
}

/// Builds the operation list for a request's options: `Convert` first when a
/// format is given, then `Resize` when at least one axis is given.
pub fn get_operations(opts: &ImageOptions) -> (r: Vec<Operation>)
    ensures
        r@ == spec_operations(opts.format, opts.width, opts.height),
{
    let mut operations: Vec<Operation> = Vec::new();
    if let Some(f) = opts.format {
        operations.push(Operation::Convert(f));
    }
    match (opts.width, opts.height) {
        (None, None) => (),
        _ => operations.push(Operation::Resize(Dimension(opts.width, opts.height))),
    }
    proof {
        assert(operations@ =~= spec_operations(opts.format, opts.width, opts.height));
    }
    operations
}

/// The MIME type reported for a sniffed format, `None` for a recognized but
/// unsupported codec.
pub open spec fn spec_mime(k: ImageKind) -> Option<Seq<char>> {
    match k {
        ImageKind::Png => Some("image/png"@),
        ImageKind::Jpeg => Some("image/jpeg"@),
        ImageKind::Gif => Some("image/gif"@),
        ImageKind::Webp => Some("image/webp"@),
        ImageKind::Tiff => Some("image/tiff"@),
        ImageKind::Bmp => Some("image/bmp"@),
        ImageKind::Ico => Some("image/x-icon"@),
        ImageKind::Avif => Some("image/avif"@),
        ImageKind::Other => None,
    }
}

fn mime_str(k: ImageKind) -> (r: Option<&'static str>)
    ensures
        match spec_mime(k) {
            Some(m) => r is Some && r.unwrap()@ == m,
            None => r is None,
        },
{
    match k {
        ImageKind::Png => Some("image/png"),
        ImageKind::Jpeg => Some("image/jpeg"),
        ImageKind::Gif => Some("image/gif"),
        ImageKind::Webp => Some("image/webp"),
        ImageKind::Tiff => Some("image/tiff"),
        ImageKind::Bmp => Some("image/bmp"),
        ImageKind::Ico => Some("image/x-icon"),
        ImageKind::Avif => Some("image/avif"),
        ImageKind::Other => None,
    }
}

/// Lifts a string result to its mathematical view.
pub open spec fn string_result_view(r: Result<String, Error>) -> Result<Seq<char>, Error> {
    match r {
        Ok(s) => Ok(s@),
        Err(e) => Err(e),
    }
}

/// The MIME type sniffed from a byte string: the detected format's type, or
/// `InvalidImageFormat` when the format is undetectable or unsupported.
pub open spec fn spec_sniffed_content_type(file: Seq<u8>) -> Result<Seq<char>, Error> {
    match sniff_of(file) {
        None => Err(Error::InvalidImageFormat),
        Some(k) => match spec_mime(k) {
            Some(m) => Ok(m),
            None => Err(Error::InvalidImageFormat),
        },
    }
}

/// Sniffs the magic bytes and maps the detected format to its MIME type;
/// an undetectable or unsupported format fails with `InvalidImageFormat`.
pub fn guess_content_type(image: &[u8]) -> (r: Result<String, Error>)
    ensures
        string_result_view(r) == spec_sniffed_content_type(image@),
{
    match sniff_format(image) {
        None => Err(Error::InvalidImageFormat),
        Some(k) => match mime_str(k) {
            Some(m) => Ok(String::from_str(m)),
            None => Err(Error::InvalidImageFormat),
        },
    }
}

/// The content type reported for a response: an explicitly requested
/// format's fixed type — never re-sniffed — and otherwise the type sniffed
/// from the bytes being returned.
pub open spec fn spec_resolved_content_type(f: Option<Format>, file: Seq<u8>) -> Result<
    Seq<char>,
    Error,
> {
    match f {
        Some(fm) => Ok(fm.spec_content_type()),
        None => spec_sniffed_content_type(file),
    }
}

/// Resolves the content type to report alongside `data`: the requested
/// format's fixed table entry takes priority; only without one are the
/// bytes sniffed.
pub fn resolve_content_type(format: Option<Format>, data: &[u8]) -> (r: Result<String, Error>)
    ensures
        string_result_view(r) == spec_resolved_content_type(format, data@),
{
    match format {
        Some(f) => Ok(String::from_str(f.content_type())),
        None => guess_content_type(data),
    }
}

} // verus!
