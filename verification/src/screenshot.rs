use vstd::prelude::*;

verus! {

/// A screen grab: `data` holds rows of RGBA samples, top to bottom, four
/// bytes per pixel; `x` and `y` are the screen's position in the global
/// desktop coordinate space.
#[derive(Debug, Clone)]
pub struct ScreenCapture {
    pub width: u32,
    pub height: u32,
    pub data: Vec<u8>,
    pub x: i32,
    pub y: i32,
}

impl ScreenCapture {
    /// The buffer holds a four-byte sample for every pixel of the advertised
    /// dimensions.
    pub open spec fn wf(&self) -> bool {
        4 * (self.width as int) * (self.height as int) <= self.data@.len()
    }
}

/// A rectangular sub-area of a capture, in pixels from its top-left corner.
#[derive(Debug, Clone)]
pub struct CaptureRegion {
    pub x: u32,
    pub y: u32,
    pub width: u32,
    pub height: u32,
}

/// Why an image operation was refused.
#[derive(Debug, Clone, Copy, PartialEq, Eq, Structural)]
pub enum CaptureError {
    /// The advertised dimensions call for more pixel bytes than the buffer holds.
    BufferMismatch,
    /// The PNG encoder rejected the image.
    EncodingFailed,
}

/// The bytes of row `y` of a buffer `w` pixels wide, restricted to the `cw`
/// pixels that start at column `cx`.
pub open spec fn row_slice(data: Seq<u8>, w: int, cx: int, cw: int, y: int) -> Seq<u8> {
    data.subrange(4 * (y * w + cx), 4 * (y * w + cx) + 4 * cw)
}

/// The first `n` rows of the cropped rectangle, concatenated top to bottom.
pub open spec fn crop_rows(data: Seq<u8>, w: int, cx: int, cy: int, cw: int, n: int) -> Seq<u8>
    decreases n,
{
    if n <= 0 {
        Seq::empty()
    } else {
        crop_rows(data, w, cx, cy, cw, n - 1) + row_slice(data, w, cx, cw, cy + (n - 1))
    }
}

/// Left edge of the cropped rectangle: an x offset beyond the capture is
/// pulled back to its right edge.
pub open spec fn crop_x(capture: &ScreenCapture, region: &CaptureRegion) -> int {
    vstd::math::min(region.x as int, capture.width as int)
}

/// Top edge of the cropped rectangle.
pub open spec fn crop_y(capture: &ScreenCapture, region: &CaptureRegion) -> int {
    vstd::math::min(region.y as int, capture.height as int)
}

/// Width of the cropped rectangle: a region wider than what is left of the
/// capture is cut down to fit.
pub open spec fn crop_w(capture: &ScreenCapture, region: &CaptureRegion) -> int {
    vstd::math::min(region.width as int, capture.width as int - crop_x(capture, region))
}

/// Height of the cropped rectangle.
pub open spec fn crop_h(capture: &ScreenCapture, region: &CaptureRegion) -> int {
    vstd::math::min(region.height as int, capture.height as int - crop_y(capture, region))
}

/// Whether the advertised dimensions fit the buffer; this is the test under
/// which every image operation here accepts a capture.
fn buffer_ok(capture: &ScreenCapture) -> (b: bool)
    ensures
        b == capture.wf(),
{
    proof {
        assert((4 * (capture.width as int)) * (capture.height as int) <= (4 * 0xffff_ffff)
            * 0xffff_ffff) by (nonlinear_arith)
            requires
                0 <= capture.width as int <= 0xffff_ffff,
                0 <= capture.height as int <= 0xffff_ffff,
        ;
    }
    let need: u128 = 4u128 * (capture.width as u128) * (capture.height as u128);
    need <= capture.data.len() as u128
}

/// The 64 digits of the standard base64 alphabet, in order.
pub open spec fn base64_alphabet() -> Seq<char> {
    "ABCDEFGHIJKLMNOPQRSTUVWXYZabcdefghijklmnopqrstuvwxyz0123456789+/"@
}

/// The digit that stands for the six-bit value `v`.
pub open spec fn base64_digit(v: u8) -> char {
    base64_alphabet()[v as int]
}

/// Standard base64 with padding: each three bytes become four digits, and
/// one or two bytes left over at the end become a group padded with '='.
pub open spec fn base64_chars(bytes: Seq<u8>) -> Seq<char>
    decreases bytes.len(),
{
    if bytes.len() == 0 {
        Seq::empty()
    } else if bytes.len() == 1 {
        let b0 = bytes[0];
        seq![base64_digit(b0 >> 2), base64_digit((b0 & 3) << 4), '=', '=']
    } else if bytes.len() == 2 {
        let b0 = bytes[0];
        let b1 = bytes[1];
        seq![
            base64_digit(b0 >> 2),
            base64_digit(((b0 & 3) << 4) | (b1 >> 4)),
            base64_digit((b1 & 15) << 2),
            '=',
        ]
    } else {
        let b0 = bytes[0];
        let b1 = bytes[1];
        let b2 = bytes[2];
        seq![
            base64_digit(b0 >> 2),
            base64_digit(((b0 & 3) << 4) | (b1 >> 4)),
            base64_digit(((b1 & 15) << 2) | (b2 >> 6)),
            base64_digit(b2 & 63),
        ] + base64_chars(bytes.skip(3))
    }
}

/// The PNG encoding of an image: a function of the dimensions and the pixel
/// bytes alone.
pub uninterp spec fn png_of(width: u32, height: u32, data: Seq<u8>) -> Seq<u8>;

/// The eight bytes every PNG stream starts with.
pub open spec fn png_signature() -> Seq<u8> {
    seq![137u8, 80u8, 78u8, 71u8, 13u8, 10u8, 26u8, 10u8]
}

/// Relies on image's `ImageBuffer::from_raw`, which accepts any buffer that
/// holds the dimensions' worth of samples, and `write_to`, whose PNG output
/// is a function of the dimensions and samples alone. Writing to an
/// in-memory buffer, the encoder fails exactly on a zero dimension, and its
/// output always opens with the PNG signature.
#[verifier::external_body]
fn encode_png(width: u32, height: u32, data: &Vec<u8>) -> (r: Result<Vec<u8>, CaptureError>)
    requires
        4 * (width as int) * (height as int) <= data@.len(),
    ensures
        width > 0 && height > 0 ==> r is Ok,
        width == 0 || height == 0 ==> r is Err,
        r matches Ok(png) ==> png@ == png_of(width, height, data@) && png@.len() >= 8
            && png@.subrange(0, 8) == png_signature(),
        r matches Err(e) ==> e == CaptureError::EncodingFailed,
{
    let img: image::ImageBuffer<image::Rgba<u8>, Vec<u8>> = match image::ImageBuffer::from_raw(
        width,
        height,
        data.clone(),
    ) {
        Some(img) => img,
        None => return Err(CaptureError::EncodingFailed),
    };
    let mut bytes: Vec<u8> = Vec::new();
    let mut cursor = std::io::Cursor::new(&mut bytes);
    match img.write_to(&mut cursor, image::ImageOutputFormat::Png) {
        Ok(()) => Ok(bytes),
        Err(_) => Err(CaptureError::EncodingFailed),
    }
}

/// Relies on base64::encode: standard alphabet, '=' padding, four digits for
/// every three bytes.
#[verifier::external_body]
fn base64_encode(bytes: &Vec<u8>) -> (r: String)
    ensures
        r@ == base64_chars(bytes@),
{
    base64::encode(bytes)
}

/// PNG-encode the capture and return the encoding as base64 text. A capture
/// whose buffer fits its dimensions and whose dimensions are both positive
/// encodes successfully; a short buffer is refused, and a zero dimension is
/// something no PNG can hold.
pub fn to_base64_png(capture: &ScreenCapture) -> (r: Result<String, CaptureError>)
    ensures
        r is Ok <==> capture.wf() && capture.width > 0 && capture.height > 0,
        r matches Ok(s) ==> s@ == base64_chars(
            png_of(capture.width, capture.height, capture.data@),
        ) && s@.len() != 0,
        r matches Err(e) ==> (e == CaptureError::BufferMismatch <==> !capture.wf()),
{
    if !buffer_ok(capture) {
        return Err(CaptureError::BufferMismatch);
    }
    let png = match encode_png(capture.width, capture.height, &capture.data) {
        Ok(png) => png,
        Err(e) => { return Err(e) },
    };
    proof {
        assert(base64_chars(png@).len() != 0);
    }
    Ok(base64_encode(&png))
}

/// Cut the region out of the capture. The rectangle is clamped to the
/// capture's bounds before copying, but the result keeps the dimensions the
/// region asked for, exactly as the request stated them; the result's origin
/// is the region's offset within the desktop coordinate space. Fails only
/// when the capture's buffer is shorter than its dimensions advertise.
pub fn crop_region(capture: &ScreenCapture, region: &CaptureRegion) -> (r: Result<
    ScreenCapture,
    CaptureError,
>)
    requires
        i32::MIN <= capture.x + (#[verifier::truncate] (region.x as i32)) <= i32::MAX,
        i32::MIN <= capture.y + (#[verifier::truncate] (region.y as i32)) <= i32::MAX,
    ensures
        r is Ok <==> capture.wf(),
        r matches Err(e) ==> e == CaptureError::BufferMismatch,
        r matches Ok(out) ==> {
            &&& out.width == region.width
            &&& out.height == region.height
            &&& out.x == capture.x + (#[verifier::truncate] (region.x as i32))
            &&& out.y == capture.y + (#[verifier::truncate] (region.y as i32))
            &&& out.data@.len() == 4 * crop_w(capture, region) * crop_h(capture, region)
            &&& out.data@ == crop_rows(
                capture.data@,
                capture.width as int,
                crop_x(capture, region),
                crop_y(capture, region),
                crop_w(capture, region),
                crop_h(capture, region),
            )
            &&& (region.x + region.width <= capture.width && region.y + region.height
                <= capture.height ==> out.wf())
        },
{
    if !buffer_ok(capture) {
        return Err(CaptureError::BufferMismatch);
    }
    let w = capture.width;
    let h = capture.height;
    let cx: u32 = if region.x < w {
        region.x
    } else {
        w
    };
    let cy: u32 = if region.y < h {
        region.y
    } else {
        h
    };
    let cw: u32 = if region.width < w - cx {
        region.width
    } else {
        w - cx
    };
    let ch: u32 = if region.height < h - cy {
        region.height
    } else {
        h - cy
    };
    let dlen: usize = capture.data.len();
    let mut out: Vec<u8> = Vec::new();
    let mut j: u32 = 0;
    while j < ch
        invariant
            capture.wf(),
            w == capture.width,
            h == capture.height,
            cx == crop_x(capture, region),
            cy == crop_y(capture, region),
            cw == crop_w(capture, region),
            ch == crop_h(capture, region),
            cx + cw <= w,
            cy + ch <= h,
            dlen == capture.data@.len(),
            j <= ch,
            out@.len() == 4 * (cw as int) * (j as int),
            out@ == crop_rows(capture.data@, w as int, cx as int, cy as int, cw as int, j as int),
        decreases ch - j,
    {
        proof {
            let wi = w as int;
            let hi = h as int;
            let row: int = cy as int + j as int;
            assert(row * wi + (cx as int + cw as int) <= hi * wi) by (nonlinear_arith)
                requires
                    0 <= row,
                    row < hi,
                    0 <= cx as int + cw as int <= wi,
            ;
            assert(hi * wi <= 4 * wi * hi && 4 * (hi * wi) == 4 * wi * hi) by (nonlinear_arith)
                requires
                    0 <= wi,
                    0 <= hi,
            ;
        }
        let rowbase: usize = 4 * (((cy + j) as usize) * (w as usize) + (cx as usize));
        let ghost row_full: Seq<u8> = row_slice(
            capture.data@,
            w as int,
            cx as int,
            cw as int,
            cy as int + j as int,
        );
        let mut i: u32 = 0;
        while i < cw
            invariant
                dlen == capture.data@.len(),
                rowbase as int == 4 * ((cy as int + j as int) * (w as int) + cx as int),
                rowbase + 4 * (cw as int) <= dlen,
                i <= cw,
                row_full == row_slice(
                    capture.data@,
                    w as int,
                    cx as int,
                    cw as int,
                    cy as int + j as int,
                ),
                row_full.len() == 4 * (cw as int),
                out@.len() == 4 * (cw as int) * (j as int) + 4 * (i as int),
                out@ == crop_rows(capture.data@, w as int, cx as int, cy as int, cw as int, j as int)
                    + row_full.subrange(0, 4 * (i as int)),
            decreases cw - i,
        {
            let b0 = capture.data[rowbase + 4 * i as usize];
            let b1 = capture.data[rowbase + 4 * i as usize + 1];
            let b2 = capture.data[rowbase + 4 * i as usize + 2];
            let b3 = capture.data[rowbase + 4 * i as usize + 3];
            out.push(b0);
            out.push(b1);
            out.push(b2);
            out.push(b3);
            proof {
                assert(row_full.subrange(0, 4 * (i as int + 1)) =~= row_full.subrange(
                    0,
                    4 * (i as int),
                ) + seq![b0, b1, b2, b3]);
                assert(out@ == crop_rows(
                    capture.data@,
                    w as int,
                    cx as int,
                    cy as int,
                    cw as int,
                    j as int,
                ) + row_full.subrange(0, 4 * (i as int + 1)));
            }
            i = i + 1;
        }
        proof {
            assert(row_full.subrange(0, 4 * (cw as int)) =~= row_full);
            assert(crop_rows(capture.data@, w as int, cx as int, cy as int, cw as int, j as int + 1)
                == crop_rows(capture.data@, w as int, cx as int, cy as int, cw as int, j as int)
                + row_full);
            assert(4 * (cw as int) * (j as int) + 4 * (cw as int) == 4 * (cw as int) * (j as int
                + 1)) by (nonlinear_arith);
        }
        j = j + 1;
    }
    Ok(
        ScreenCapture {
            width: region.width,
            height: region.height,
            data: out,
            x: capture.x + (#[verifier::truncate] (region.x as i32)),
            y: capture.y + (#[verifier::truncate] (region.y as i32)),
        },
    )
}

} // verus!
