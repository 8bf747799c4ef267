use vstd::prelude::*;

verus! {

#[verifier::external_type_specification]
#[verifier::external_body]
pub struct ExSixelError(icy_sixel::SixelError);

/// The sixel text that icy_sixel's encoder makes of an RGBA image of the given
/// size with its default options.
pub uninterp spec fn sixel_of(rgba: Seq<u8>, width: nat, height: nat) -> Seq<char>;

/// One scaled frame: rows of pixels, three bytes (red, green, blue) each.
pub struct RgbFrame {
    pub width: u32,
    pub height: u32,
    pub data: Vec<u8>,
}

/// Why a frame could not be encoded.
#[derive(PartialEq, Eq, Structural, Clone, Copy, Debug)]
pub enum EncodeError {
    /// The buffer length is not width x height x 3.
    Malformed,
    /// The sixel encoder refused the image.
    Sixel,
}

/// The buffer length a frame of this size must have.
pub open spec fn rgb_len(width: nat, height: nat) -> nat {
    width * height * 3
}

/// The same pixels with a fourth, fully opaque channel after each.
pub open spec fn rgba_of(rgb: Seq<u8>) -> Seq<u8> {
    Seq::new(
        (rgb.len() / 3) * 4,
        |i: int| if i % 4 == 3 { 255u8 } else { rgb[(i / 4) * 3 + i % 4] },
    )
}

/// Relies on image::ImageBuffer::from_raw for 8-bit RGB pixels, which accepts a
/// buffer holding at least width x height x 3 bytes, and on into_raw, which
/// hands that buffer back unchanged.
#[verifier::external_body]
fn rgb_image_from_raw(width: u32, height: u32, data: Vec<u8>) -> (r: Option<Vec<u8>>)
    ensures
        r is Some <==> rgb_len(width as nat, height as nat) <= data@.len(),
        r matches Some(b) ==> b@ == data@,
{
    image::ImageBuffer::<image::Rgb<u8>, Vec<u8>>::from_raw(width, height, data).map(
        image::ImageBuffer::into_raw,
    )
}

/// Whether icy_sixel's encoder accepts an image of this size: not empty, at
/// most a million columns, at most a million rows once rounded up to whole
/// six-row bands, and at most 64 Mi pixels over those bands.
pub open spec fn sixel_size_ok(width: nat, height: nat) -> bool {
    &&& 0 < width
    &&& 0 < height
    &&& width <= 1_000_000
    &&& (height + 5) / 6 * 6 <= 1_000_000
    &&& width * ((height + 5) / 6 * 6) <= 67_108_864
}

/// Relies on icy_sixel::sixel_encode with default options: it fails on an empty
/// image or a buffer that is not width x height x 4 bytes; it succeeds on a
/// fully opaque image within its size limits; when it succeeds it returns the
/// encoding of the image.
#[verifier::external_body]
fn sixel_encode(rgba: &Vec<u8>, width: usize, height: usize) -> (r: Result<String, icy_sixel::SixelError>)
    ensures
        r is Ok ==> width > 0 && height > 0 && rgba@.len() == width * height * 4,
        sixel_size_ok(width as nat, height as nat) && rgba@.len() == width * height * 4 && (forall|i: int|
            0 <= i < rgba@.len() && i % 4 == 3 ==> #[trigger] rgba@[i] >= 128) ==> r is Ok,
        r matches Ok(s) ==> s@ == sixel_of(rgba@, width as nat, height as nat),
{
    icy_sixel::sixel_encode(rgba, width, height, &icy_sixel::EncodeOptions::default())
}

/// Adds an opaque alpha byte after every three colour bytes.
pub fn rgb_to_rgba(rgb: &Vec<u8>) -> (r: Vec<u8>)
    requires
        rgb@.len() % 3 == 0,
        rgb@.len() / 3 * 4 <= usize::MAX,
    ensures
        r@ == rgba_of(rgb@),
{
    let n: usize = rgb.len();
    let pixels: usize = n / 3;
    let mut out: Vec<u8> = Vec::with_capacity(pixels * 4);
    let mut p: usize = 0;
    while p < pixels
        invariant
            n == rgb@.len(),
            pixels == rgb@.len() / 3,
            rgb@.len() % 3 == 0,
            p <= pixels,
            out@.len() == p * 4,
            forall|i: int| 0 <= i < p * 4 ==> #[trigger] out@[i] == rgba_of(rgb@)[i],
        decreases pixels - p,
    {
        assert(p * 3 + 2 < rgb@.len()) by (nonlinear_arith)
            requires p < pixels, pixels == rgb@.len() / 3, rgb@.len() % 3 == 0;
        let base: usize = p * 3;
        out.push(rgb[base]);
        out.push(rgb[base + 1]);
        out.push(rgb[base + 2]);
        out.push(255u8);
        proof {
            assert forall|i: int| 0 <= i < (p + 1) * 4 implies #[trigger] out@[i] == rgba_of(rgb@)[i] by {
                if i >= p * 4 {
                    assert(i / 4 == p) by (nonlinear_arith)
                        requires p * 4 <= i < (p + 1) * 4;
                    assert(i % 4 == i - p * 4) by (nonlinear_arith)
                        requires p * 4 <= i < (p + 1) * 4, i / 4 == p;
                }
            }
        }
        p = p + 1;
    }
    assert(out@ =~= rgba_of(rgb@));
    out
}

/// Encodes one frame as a sixel block. A frame whose buffer is not exactly
/// width x height x 3 bytes is malformed; otherwise the result is the encoding
/// of its pixels with an opaque alpha channel, unless the encoder refuses it.
pub fn rgb_frame_to_sixel(frame: RgbFrame) -> (r: Result<String, EncodeError>)
    ensures
        r == Err::<String, EncodeError>(EncodeError::Malformed) <==> frame.data@.len() != rgb_len(
            frame.width as nat,
            frame.height as nat,
        ),
        frame.width == 0 || frame.height == 0 ==> r is Err,
        frame.data@.len() == rgb_len(frame.width as nat, frame.height as nat) && sixel_size_ok(
            frame.width as nat,
            frame.height as nat,
        ) ==> r is Ok,
        r matches Ok(s) ==> s@ == sixel_of(
            rgba_of(frame.data@),
            frame.width as nat,
            frame.height as nat,
        ),
{
    let width = frame.width;
    let height = frame.height;
    assert(width as nat * height as nat <= 0xffff_ffffu64 as nat * 0xffff_ffffu64 as nat) by (nonlinear_arith)
        requires width <= 0xffff_ffffu64, height <= 0xffff_ffffu64;
    let pixels: u64 = width as u64 * height as u64;
    if pixels > (frame.data.len() / 3) as u64 || pixels * 3 != frame.data.len() as u64 {
        return Err(EncodeError::Malformed);
    }
    let rgb = match rgb_image_from_raw(width, height, frame.data) {
        Some(b) => b,
        None => return Err(EncodeError::Malformed),
    };
    proof {
        if sixel_size_ok(width as nat, height as nat) {
            let band = (height as nat + 5) / 6 * 6;
            assert(height as nat <= band);
            assert(width as nat * height as nat <= width as nat * band) by (nonlinear_arith)
                requires height as nat <= band;
        }
    }
    if pixels > (usize::MAX / 4) as u64 {
        // the encoder cannot size an RGBA buffer this large
        return Err(EncodeError::Sixel);
    }
    let rgba = rgb_to_rgba(&rgb);
    proof {
        assert(rgb@.len() / 3 == pixels) by (nonlinear_arith)
            requires rgb@.len() == pixels * 3;
        assert(rgba@.len() == width as nat * height as nat * 4);
        assert forall|i: int| 0 <= i < rgba@.len() && i % 4 == 3 implies #[trigger] rgba@[i] >= 128 by {
        }
    }
    match sixel_encode(&rgba, width as usize, height as usize) {
        Ok(s) => Ok(s),
        Err(_) => Err(EncodeError::Sixel),
    }
}

} // verus!
