//! Video frames and their conversion to RGBA.
//!
//! Raw frames arrive in one of four formats and leave as RGBA buffers. The
//! conversions are pure functions of the payload and the dimensions.

use vstd::prelude::*;
use vstd::arithmetic::div_mod::lemma_fundamental_div_mod_converse;

verus! {

/// Pixel layout of a frame's payload.
#[derive(Debug, Clone, Copy, PartialEq, Eq, Structural)]
pub enum VideoFormat {
    RGB24,
    RGBA32,
    YUV420P,
    H264,
}

/// Why a frame could not be converted.
#[derive(Debug, Clone, Copy, PartialEq, Eq, Structural)]
pub enum FrameError {
    /// The payload does not have the shape its format and dimensions demand.
    MalformedFrame,
}

/// A frame as it comes from the transport: payload, dimensions, format tag
/// and capture time in milliseconds.
#[derive(Debug, Clone)]
pub struct VideoFrame {
    pub data: Vec<u8>,
    pub width: u32,
    pub height: u32,
    pub format: VideoFormat,
    pub timestamp: u64,
}

/// An RGBA buffer with its dimensions: what the display surface consumes.
#[derive(Debug, Clone)]
pub struct RenderableFrame {
    pub pixels: Vec<u8>,
    pub width: u32,
    pub height: u32,
}

/// A channel value cut down to the range of a byte.
pub open spec fn clamp_channel(v: int) -> u8 {
    if v < 0 {
        0u8
    } else if v > 255 {
        255u8
    } else {
        v as u8
    }
}

/// Red: `Y + 1.402 (V - 128)`, in thousandths, rounded down and clamped.
pub open spec fn yuv_red(y: u8, v: u8) -> u8 {
    clamp_channel((1000 * y + 1402 * (v - 128)) / 1000)
}

/// Green: `Y - 0.344 (U - 128) - 0.714 (V - 128)`, in thousandths, rounded
/// down and clamped.
pub open spec fn yuv_green(y: u8, u: u8, v: u8) -> u8 {
    clamp_channel((1000 * y - 344 * (u - 128) - 714 * (v - 128)) / 1000)
}

/// Blue: `Y + 1.772 (U - 128)`, in thousandths, rounded down and clamped.
pub open spec fn yuv_blue(y: u8, u: u8) -> u8 {
    clamp_channel((1000 * y + 1772 * (u - 128)) / 1000)
}

fn clamp_thousandths(n: i32) -> (c: u8)
    requires
        -1_000_000 <= n <= 1_000_000,
    ensures
        c == clamp_channel(n as int / 1000),
{
    if n < 0 {
        0
    } else {
        let q: i32 = n / 1000;
        if q > 255 {
            255
        } else {
            q as u8
        }
    }
}

/// Converts one luma sample with its chroma pair to red, green and blue.
pub fn yuv_to_rgb_pixel(y: u8, u: u8, v: u8) -> (rgb: (u8, u8, u8))
    ensures
        rgb.0 == yuv_red(y, v),
        rgb.1 == yuv_green(y, u, v),
        rgb.2 == yuv_blue(y, u),
{
    let luma: i32 = 1000 * (y as i32);
    let cb: i32 = (u as i32) - 128;
    let cr: i32 = (v as i32) - 128;
    let r = clamp_thousandths(luma + 1402 * cr);
    let g = clamp_thousandths(luma - 344 * cb - 714 * cr);
    let b = clamp_thousandths(luma + 1772 * cb);
    (r, g, b)
}

/// Bytes in each of the two chroma planes of a `w` by `h` frame: a quarter of
/// the luma plane.
pub open spec fn chroma_plane_len(w: nat, h: nat) -> nat {
    (w * h) / 4
}

/// Place, inside its plane, of the chroma sample shared by the two-by-two
/// block that holds the pixel at column `x`, row `y`.
pub open spec fn chroma_index(w: nat, x: nat, y: nat) -> nat {
    (y / 2) * (w / 2) + x / 2
}

/// Bytes a planar 4:2:0 frame of `w` by `h` pixels takes: one and a half
/// for every pixel, rounded down.
pub open spec fn yuv420p_len(w: nat, h: nat) -> nat {
    (3 * (w * h)) / 2
}

/// A planar 4:2:0 buffer of `len` bytes can be read as a `w` by `h` frame:
/// it is no shorter than such a frame, which lets it hold the luma plane and
/// both chroma planes, and every pixel's chroma sample lies inside its plane.
pub open spec fn yuv420p_well_formed(len: nat, w: nat, h: nat) -> bool {
    &&& len >= yuv420p_len(w, h)
    &&& forall|x: nat, y: nat|
        x < w && y < h ==> #[trigger] chroma_index(w, x, y) < chroma_plane_len(w, h)
}

/// Channel `c` (0 red, 1 green, 2 blue) of the pixel at column `x`, row `y`.
pub open spec fn yuv420p_channel(data: Seq<u8>, w: nat, h: nat, x: nat, y: nat, c: int) -> u8 {
    let luma = data[(y * w + x) as int];
    let cb = data[(w * h + chroma_index(w, x, y)) as int];
    let cr = data[(w * h + chroma_plane_len(w, h) + chroma_index(w, x, y)) as int];
    if c == 0 {
        yuv_red(luma, cr)
    } else if c == 1 {
        yuv_green(luma, cb, cr)
    } else {
        yuv_blue(luma, cb)
    }
}

/// The RGB24 image of a planar 4:2:0 buffer: three bytes per pixel, rows from
/// the top, pixels from the left.
pub open spec fn yuv420p_rgb(data: Seq<u8>, w: nat, h: nat) -> Seq<u8> {
    Seq::new(
        3 * w * h,
        |i: int|
            yuv420p_channel(
                data,
                w,
                h,
                ((i / 3) % (w as int)) as nat,
                ((i / 3) / (w as int)) as nat,
                i % 3,
            ),
    )
}

/// The chroma sample of the last pixel is the farthest one into the plane.
proof fn lemma_chroma_index_bound(w: nat, h: nat, x: nat, y: nat)
    requires
        x < w,
        y < h,
    ensures
        chroma_index(w, x, y) <= chroma_index(w, (w - 1) as nat, (h - 1) as nat),
{
    let a = y / 2;
    let b = ((h - 1) as nat) / 2;
    let c = w / 2;
    assert(a * c <= b * c) by (nonlinear_arith)
        requires
            a <= b,
            c >= 0,
    ;
}

/// Whether the planes fit the buffer, decided on the last pixel alone.
fn yuv420p_layout(len: usize, width: u32, height: u32) -> (r: Option<(usize, usize)>)
    ensures
        match r {
            Some((luma_len, plane_len)) => {
                &&& yuv420p_well_formed(len as nat, width as nat, height as nat)
                &&& luma_len == width * height
                &&& plane_len == chroma_plane_len(width as nat, height as nat)
                &&& luma_len + 2 * plane_len <= len
            },
            None => !yuv420p_well_formed(len as nat, width as nat, height as nat),
        },
{
    let ghost w = width as nat;
    let ghost h = height as nat;
    assert(w * h <= 0xffff_ffff * 0xffff_ffff) by (nonlinear_arith)
        requires
            w <= 0xffff_ffff,
            h <= 0xffff_ffff,
    ;
    let luma64: u64 = (width as u64) * (height as u64);
    if luma64 > len as u64 {
        return None;
    }
    let luma_len: usize = luma64 as usize;
    let plane_len: usize = luma_len / 4;
    if len - luma_len < luma_len / 2 {
        return None;
    }
    if width == 0 || height == 0 {
        return Some((luma_len, plane_len));
    }
    let half_w: usize = (width / 2) as usize;
    let last_row: usize = ((height - 1) / 2) as usize;
    proof {
        assert(last_row * half_w + half_w <= w * h) by (nonlinear_arith)
            requires
                last_row + 1 <= h,
                half_w <= w,
                last_row >= 0,
                half_w >= 0,
        ;
    }
    let last: usize = last_row * half_w + ((width - 1) / 2) as usize;
    assert(last == chroma_index(w, (w - 1) as nat, (h - 1) as nat));
    if last < plane_len {
        assert forall|x: nat, y: nat| x < w && y < h implies #[trigger] chroma_index(w, x, y)
            < chroma_plane_len(w, h) by {
            lemma_chroma_index_bound(w, h, x, y);
        }
        Some((luma_len, plane_len))
    } else {
        None
    }
}

/// Converts a planar 4:2:0 buffer to RGB24.
///
/// Every two-by-two block of luma samples shares one chroma pair. The buffer
/// is refused when it is shorter than one and a half bytes for every pixel,
/// and when the dimensions put the chroma sample of some pixel outside its
/// plane, as odd ones may. Bytes beyond the three planes are not read.
pub fn yuv420p_to_rgb(yuv_data: &[u8], width: u32, height: u32) -> (r: Result<Vec<u8>, FrameError>)
    ensures
        yuv420p_well_formed(yuv_data@.len(), width as nat, height as nat) ==> r is Ok && r->Ok_0@
            == yuv420p_rgb(yuv_data@, width as nat, height as nat),
        !yuv420p_well_formed(yuv_data@.len(), width as nat, height as nat) ==> r is Err && r->Err_0
            == FrameError::MalformedFrame,
{
    let (luma_len, plane_len) = match yuv420p_layout(yuv_data.len(), width, height) {
        Some(layout) => layout,
        None => {
            return Err(FrameError::MalformedFrame);
        },
    };
    let ghost w = width as nat;
    let ghost h = height as nat;
    let ghost image = yuv420p_rgb(yuv_data@, w, h);
    let w_len: usize = width as usize;
    let h_len: usize = height as usize;
    let half_w: usize = w_len / 2;
    let mut rgb: Vec<u8> = Vec::new();
    let mut row: usize = 0;
    let mut pixel: usize = 0;
    while row < h_len
        invariant
            w == width,
            h == height,
            w_len == width,
            h_len == height,
            half_w == w_len / 2,
            luma_len == w * h,
            plane_len == chroma_plane_len(w, h),
            yuv420p_well_formed(yuv_data@.len(), w, h),
            image == yuv420p_rgb(yuv_data@, w, h),
            row <= h_len,
            pixel == row * w_len,
            rgb@.len() == 3 * pixel,
            forall|k: int| 0 <= k < rgb@.len() ==> rgb@[k] == image[k],
        decreases h_len - row,
    {
        let mut col: usize = 0;
        while col < w_len
            invariant
                w == width,
                h == height,
                w_len == width,
                h_len == height,
                half_w == w_len / 2,
                luma_len == w * h,
                plane_len == chroma_plane_len(w, h),
                yuv420p_well_formed(yuv_data@.len(), w, h),
                image == yuv420p_rgb(yuv_data@, w, h),
                row < h_len,
                col <= w_len,
                pixel == row * w_len + col,
                rgb@.len() == 3 * pixel,
                forall|k: int| 0 <= k < rgb@.len() ==> rgb@[k] == image[k],
            decreases w_len - col,
        {
            proof {
                assert(row * w_len + w_len <= h_len * w_len) by (nonlinear_arith)
                    requires
                        row + 1 <= h_len,
                        w_len >= 0,
                ;
                assert(chroma_index(w, col as nat, row as nat) < chroma_plane_len(w, h));
                lemma_fundamental_div_mod_converse(pixel as int, w_len as int, row as int, col as int);
            }
            let chroma: usize = (row / 2) * half_w + col / 2;
            let (red, green, blue) = yuv_to_rgb_pixel(
                yuv_data[pixel],
                yuv_data[luma_len + chroma],
                yuv_data[luma_len + plane_len + chroma],
            );
            rgb.push(red);
            rgb.push(green);
            rgb.push(blue);
            proof {
                assert(3 * (pixel + 1) <= 3 * w * h) by (nonlinear_arith)
                    requires
                        pixel + 1 <= w * h,
                ;
            }
            col = col + 1;
            pixel = pixel + 1;
        }
        proof {
            assert((row + 1) * w_len == row * w_len + w_len) by (nonlinear_arith);
        }
        row = row + 1;
    }
    proof {
        assert(h_len * w_len == w * h) by (nonlinear_arith)
            requires
                h_len == h,
                w_len == w,
        ;
        assert(3 * (w * h) == 3 * w * h) by (nonlinear_arith);
    }
    Ok(rgb)
}

/// RGB24 with a fully opaque alpha byte after every pixel.
pub open spec fn rgb24_rgba(rgb: Seq<u8>) -> Seq<u8> {
    Seq::new(
        (rgb.len() / 3 * 4) as nat,
        |i: int|
            if i % 4 == 3 {
                255u8
            } else {
                rgb[(i / 4) * 3 + i % 4]
            },
    )
}

/// Converts RGB24 to RGBA32 by appending an opaque alpha byte to each pixel.
///
/// A payload that does not split into three-byte groups is refused.
pub fn rgb24_to_rgba(rgb: &[u8]) -> (r: Result<Vec<u8>, FrameError>)
    ensures
        rgb@.len() % 3 == 0 ==> r is Ok && r->Ok_0@ == rgb24_rgba(rgb@),
        rgb@.len() % 3 != 0 ==> r is Err && r->Err_0 == FrameError::MalformedFrame,
{
    let len: usize = rgb.len();
    if len % 3 != 0 {
        return Err(FrameError::MalformedFrame);
    }
    let ghost image = rgb24_rgba(rgb@);
    let pixels: usize = len / 3;
    let mut rgba: Vec<u8> = Vec::new();
    let mut done: usize = 0;
    while done < pixels
        invariant
            len == rgb@.len(),
            len == 3 * pixels,
            done <= pixels,
            image == rgb24_rgba(rgb@),
            image.len() == 4 * pixels,
            rgba@.len() == 4 * done,
            forall|k: int| 0 <= k < rgba@.len() ==> rgba@[k] == image[k],
        decreases pixels - done,
    {
        let at: usize = 3 * done;
        rgba.push(rgb[at]);
        rgba.push(rgb[at + 1]);
        rgba.push(rgb[at + 2]);
        rgba.push(255);
        done = done + 1;
    }
    Ok(rgba)
}

/// The neutral-gray buffer that stands for a frame no decoder could open.
pub open spec fn gray_rgba(w: nat, h: nat) -> Seq<u8> {
    Seq::new(4 * w * h, |i: int| 128u8)
}

/// A neutral-gray RGBA buffer for a `width` by `height` frame, or `None`
/// when a buffer of that size cannot be addressed on this machine.
pub fn gray_placeholder(width: u32, height: u32) -> (r: Option<Vec<u8>>)
    ensures
        4 * width * height <= usize::MAX ==> r is Some && r->Some_0@ == gray_rgba(
            width as nat,
            height as nat,
        ),
        4 * width * height > usize::MAX ==> r is None,
{
    assert(width * height <= 0xffff_ffff * 0xffff_ffff) by (nonlinear_arith)
        requires
            width <= 0xffff_ffff,
            height <= 0xffff_ffff,
    ;
    assert(4 * width * height == 4 * (width * height)) by (nonlinear_arith);
    let area: u64 = (width as u64) * (height as u64);
    if area > (usize::MAX as u64) / 4 {
        return None;
    }
    let len: usize = (4 * area) as usize;
    let pixels: Vec<u8> = vec![128u8; len];
    Some(pixels)
}

/// What a frame is, apart from how its bytes are stored.
pub struct VideoFrameView {
    pub data: Seq<u8>,
    pub width: u32,
    pub height: u32,
    pub format: VideoFormat,
    pub timestamp: u64,
}

impl View for VideoFrame {
    type V = VideoFrameView;

    open spec fn view(&self) -> VideoFrameView {
        VideoFrameView {
            data: self.data@,
            width: self.width,
            height: self.height,
            format: self.format,
            timestamp: self.timestamp,
        }
    }
}

/// What a renderable frame is, apart from how its bytes are stored.
pub struct RenderableFrameView {
    pub pixels: Seq<u8>,
    pub width: u32,
    pub height: u32,
}

impl View for RenderableFrame {
    type V = RenderableFrameView;

    open spec fn view(&self) -> RenderableFrameView {
        RenderableFrameView { pixels: self.pixels@, width: self.width, height: self.height }
    }
}

/// The buffer holds four bytes for every pixel of its dimensions, no more and
/// no fewer.
pub open spec fn picture_fills(frame: RenderableFrameView) -> bool {
    frame.pixels.len() == 4 * (frame.width * frame.height)
}

impl RenderableFrame {
    /// Whether the buffer fills the dimensions: a display surface that takes
    /// one pixel for every four bytes can show it as it stands.
    pub fn fills_dimensions(&self) -> (r: bool)
        ensures
            r == picture_fills(self@),
    {
        assert(self.width * self.height <= 0xffff_ffff * 0xffff_ffff) by (nonlinear_arith)
            requires
                self.width <= 0xffff_ffff,
                self.height <= 0xffff_ffff,
        ;
        let area: u64 = (self.width as u64) * (self.height as u64);
        let len: usize = self.pixels.len();
        len % 4 == 0 && (len / 4) as u64 == area
    }
}

/// The RGBA bytes a payload converts to, or `None` where the payload is
/// malformed for its format and dimensions.
pub open spec fn converted_pixels(data: Seq<u8>, width: u32, height: u32, format: VideoFormat) -> Option<
    Seq<u8>,
> {
    match format {
        VideoFormat::RGB24 => if data.len() % 3 == 0 {
            Some(rgb24_rgba(data))
        } else {
            None
        },
        VideoFormat::RGBA32 => Some(data),
        VideoFormat::YUV420P => if yuv420p_well_formed(data.len(), width as nat, height as nat) {
            Some(rgb24_rgba(yuv420p_rgb(data, width as nat, height as nat)))
        } else {
            None
        },
        VideoFormat::H264 => if 4 * width * height <= usize::MAX {
            Some(gray_rgba(width as nat, height as nat))
        } else {
            None
        },
    }
}

/// The renderable frame a frame converts to: the converted bytes under the
/// frame's own dimensions.
pub open spec fn converted(frame: VideoFrameView) -> Option<RenderableFrameView> {
    match converted_pixels(frame.data, frame.width, frame.height, frame.format) {
        Some(pixels) => Some(
            RenderableFrameView { pixels, width: frame.width, height: frame.height },
        ),
        None => None,
    }
}

/// Normalizes a frame of any format to RGBA.
///
/// RGB24 gains an alpha channel, RGBA32 is copied, planar 4:2:0 goes through
/// RGB24, and an encoded frame, for which no decoder is at hand, becomes a
/// gray placeholder of the same dimensions.
pub fn convert_frame(frame: &VideoFrame) -> (r: Result<RenderableFrame, FrameError>)
    ensures
        match converted(frame@) {
            Some(image) => r is Ok && r->Ok_0@ == image,
            None => r is Err && r->Err_0 == FrameError::MalformedFrame,
        },
{
    let pixels: Vec<u8> = match frame.format {
        VideoFormat::RGB24 => match rgb24_to_rgba(frame.data.as_slice()) {
            Ok(rgba) => rgba,
            Err(e) => {
                return Err(e);
            },
        },
        VideoFormat::RGBA32 => {
            let copy = frame.data.clone();
            copy
        },
        VideoFormat::YUV420P => match yuv420p_to_rgb(
            frame.data.as_slice(),
            frame.width,
            frame.height,
        ) {
            Ok(rgb) => {
                proof {
                    assert(3 * (frame.width as nat) * (frame.height as nat) == 3 * ((
                    frame.width as nat) * (frame.height as nat))) by (nonlinear_arith);
                }
                match rgb24_to_rgba(rgb.as_slice()) {
                    Ok(rgba) => rgba,
                    Err(e) => {
                        return Err(e);
                    },
                }
            },
            Err(e) => {
                return Err(e);
            },
        },
        VideoFormat::H264 => match gray_placeholder(frame.width, frame.height) {
            Some(gray) => gray,
            None => {
                return Err(FrameError::MalformedFrame);
            },
        },
    };
    Ok(RenderableFrame { pixels, width: frame.width, height: frame.height })
}

/// At neutral chroma each channel equals the luma sample.
pub proof fn lemma_neutral_chroma(y: u8)
    ensures
        yuv_red(y, 128) == y,
        yuv_green(y, 128, 128) == y,
        yuv_blue(y, 128) == y,
{
}

/// A buffer that holds the byte 128 throughout converts to the color
/// (128, 128, 128) at every pixel, whatever the dimensions.
pub proof fn lemma_uniform_gray(data: Seq<u8>, w: nat, h: nat)
    requires
        yuv420p_well_formed(data.len(), w, h),
        forall|i: int| 0 <= i < data.len() ==> data[i] == 128,
    ensures
        yuv420p_rgb(data, w, h).len() == 3 * w * h,
        forall|k: int| 0 <= k < 3 * w * h ==> yuv420p_rgb(data, w, h)[k] == 128,
{
    assert forall|k: int| 0 <= k < 3 * w * h implies yuv420p_rgb(data, w, h)[k] == 128 by {
        let p = k / 3;
        assert(3 * w * h == 3 * (w * h)) by (nonlinear_arith);
        let x = (p % (w as int)) as nat;
        let y = (p / (w as int)) as nat;
        vstd::arithmetic::div_mod::lemma_fundamental_div_mod(p, w as int);
        assert(y < h) by (nonlinear_arith)
            requires
                p == w * y + x,
                p < w * h,
                x >= 0,
                w > 0,
        ;
    }
}

/// The payload of a frame fills its dimensions: three bytes a pixel for
/// RGB24, four for RGBA32, the three planes for planar 4:2:0. An encoded
/// frame has nothing to fill.
pub open spec fn payload_fills(frame: VideoFrameView) -> bool {
    match frame.format {
        VideoFormat::RGB24 => frame.data.len() == 3 * frame.width * frame.height,
        VideoFormat::RGBA32 => frame.data.len() == 4 * frame.width * frame.height,
        VideoFormat::YUV420P => yuv420p_well_formed(
            frame.data.len(),
            frame.width as nat,
            frame.height as nat,
        ),
        VideoFormat::H264 => true,
    }
}

/// No partial picture: a frame whose payload fills its dimensions converts,
/// if it converts, to four bytes for every pixel of those dimensions.
pub proof fn lemma_picture_fills_its_dimensions(frame: VideoFrameView)
    requires
        payload_fills(frame),
        converted(frame) is Some,
    ensures
        converted(frame)->Some_0.width == frame.width,
        converted(frame)->Some_0.height == frame.height,
        converted(frame)->Some_0.pixels.len() == 4 * frame.width * frame.height,
        picture_fills(converted(frame)->Some_0),
{
    let w = frame.width as nat;
    let h = frame.height as nat;
    assert(3 * w * h == 3 * (w * h)) by (nonlinear_arith);
    assert(4 * w * h == 4 * (w * h)) by (nonlinear_arith);
}

} // verus!
