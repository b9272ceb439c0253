//! Pictures as the window buffer needs them, and how one is fitted and
//! centered into the buffer.

use vstd::prelude::*;
use crate::color::{from_u8_rgb, rgb};

verus! {

/// A picture: its size and its pixels, row by row, as `0x00RRGGBB`.
pub struct PictureModel {
    pub width: u32,
    pub height: u32,
    pub pixels: Seq<u32>,
}

/// A decoded picture, row-major.
pub struct Picture {
    width: u32,
    height: u32,
    pixels: Vec<u32>,
}

impl View for Picture {
    type V = PictureModel;

    closed spec fn view(&self) -> PictureModel {
        PictureModel { width: self.width, height: self.height, pixels: self.pixels@ }
    }
}

impl Picture {
    #[verifier::type_invariant]
    pub open spec fn inv(&self) -> bool {
        self@.pixels.len() == self@.width * self@.height
    }

    /// A picture of `width` by `height` with the given rows; `None` when the
    /// number of pixels is not `width * height`.
    pub fn new(width: u32, height: u32, pixels: Vec<u32>) -> (r: Option<Picture>)
        ensures
            pixels@.len() == width * height ==> (r matches Some(p) && p@ == (PictureModel {
                width,
                height,
                pixels: pixels@,
            })),
            pixels@.len() != width * height ==> r is None,
    {
        let w = width as u64;
        let h = height as u64;
        assert(w * h <= u32::MAX as u64 * u32::MAX as u64) by (nonlinear_arith)
            requires
                w <= u32::MAX,
                h <= u32::MAX,
        ;
        if pixels.len() as u64 == w * h {
            Some(Picture { width, height, pixels })
        } else {
            None
        }
    }

    /// The width in pixels.
    pub fn width(&self) -> (r: u32)
        ensures
            r == self@.width,
    {
        self.width
    }

    /// The height in pixels.
    pub fn height(&self) -> (r: u32)
        ensures
            r == self@.height,
    {
        self.height
    }

    /// The pixels, row by row.
    pub fn pixels(&self) -> (r: &[u32])
        ensures
            r@ == self@.pixels,
    {
        self.pixels.as_slice()
    }
}

/// The first `n` pixels of packed 8-bit RGB data.
pub open spec fn rgb8_pixels(raw: Seq<u8>, n: int) -> Seq<u32> {
    Seq::new(n as nat, |t: int| rgb(raw[3 * t], raw[3 * t + 1], raw[3 * t + 2]))
}

/// The `cw` by `ch` window at column `x` and row `y` of packed 8-bit RGB data
/// that is `width` pixels wide.
pub open spec fn cropped(raw: Seq<u8>, width: int, x: int, y: int, cw: int, ch: int) -> Seq<u8> {
    Seq::new(
        (3 * cw * ch) as nat,
        |b: int| raw[3 * ((y + (b / 3) / cw) * width + x + (b / 3) % cw) + b % 3],
    )
}

/// Offset and length, along one axis, of the part of `size` that is kept
/// within `max`: all of it, or its middle `max`.
pub open spec fn crop_axis(size: u32, max: u32) -> (u32, u32) {
    if size > max {
        (((size - max) / 2) as u32, max)
    } else {
        (0, size)
    }
}

/// A `width` by `height` picture in packed 8-bit RGB, cut down to its middle
/// where it exceeds `max_width` by `max_height`.
pub open spec fn fitted(width: u32, height: u32, raw: Seq<u8>, max_width: u32, max_height: u32) -> PictureModel {
    if width <= max_width && height <= max_height {
        PictureModel { width, height, pixels: rgb8_pixels(raw, width * height) }
    } else {
        let (x, cw) = crop_axis(width, max_width);
        let (y, ch) = crop_axis(height, max_height);
        PictureModel {
            width: cw,
            height: ch,
            pixels: rgb8_pixels(cropped(raw, width as int, x as int, y as int, cw as int, ch as int), cw * ch),
        }
    }
}

/// Relies on `image::ImageBuffer::from_raw`, `image::imageops::crop_imm` and
/// `SubImage::to_image`: the window of an RGB image, row-major, three bytes
/// per pixel. `from_raw` accepts data at least as long as the image needs.
#[verifier::external_body]
fn crop_rgb8(width: u32, height: u32, raw: Vec<u8>, x: u32, y: u32, cw: u32, ch: u32) -> (r: Vec<u8>)
    requires
        raw@.len() >= 3 * width * height,
        x + cw <= width,
        y + ch <= height,
    ensures
        r@ == cropped(raw@, width as int, x as int, y as int, cw as int, ch as int),
{
    let img = image::RgbImage::from_raw(width, height, raw).unwrap();
    image::imageops::crop_imm(&img, x, y, cw, ch).to_image().into_raw()
}

/// The part of one axis that is kept: offset and length.
pub fn crop_window(size: u32, max: u32) -> (r: (u32, u32))
    ensures
        r == crop_axis(size, max),
{
    if size > max {
        ((size - max) / 2, max)
    } else {
        (0, size)
    }
}

/// A picture from packed 8-bit RGB data, three bytes per pixel, row-major.
pub fn picture_from_rgb8(width: u32, height: u32, raw: &[u8]) -> (r: Picture)
    requires
        raw@.len() >= 3 * width * height,
    ensures
        r@ == (PictureModel { width, height, pixels: rgb8_pixels(raw@, width * height) }),
{
    let w = width as u64;
    let h = height as u64;
    let len = raw.len();
    assert(w * h <= len && 3 * (w * h) <= len) by (nonlinear_arith)
        requires
            len >= 3 * w * h,
    ;
    let n = (w * h) as usize;
    let mut pixels: Vec<u32> = Vec::with_capacity(n);
    let mut t: usize = 0;
    while t < n
        invariant
            t <= n,
            n == width * height,
            3 * n <= len,
            len == raw@.len(),
            pixels@ == rgb8_pixels(raw@, t as int),
        decreases n - t,
    {
        let b = 3 * t;
        pixels.push(from_u8_rgb(raw[b], raw[b + 1], raw[b + 2]));
        t += 1;
        assert(pixels@ =~= rgb8_pixels(raw@, t as int));
    }
    Picture { width, height, pixels }
}

/// Fits a decoded `width` by `height` picture, given as packed 8-bit RGB,
/// into `max_width` by `max_height`: a picture that is too large keeps its
/// middle.
pub fn fit_image(width: u32, height: u32, raw: Vec<u8>, max_width: u32, max_height: u32) -> (r: Picture)
    requires
        raw@.len() >= 3 * width * height,
    ensures
        r@ == fitted(width, height, raw@, max_width, max_height),
        r@.width <= max_width,
        r@.height <= max_height,
{
    if width <= max_width && height <= max_height {
        return picture_from_rgb8(width, height, raw.as_slice());
    }
    let (x, cw) = crop_window(width, max_width);
    let (y, ch) = crop_window(height, max_height);
    let part = crop_rgb8(width, height, raw, x, y, cw, ch);
    picture_from_rgb8(cw, ch, part.as_slice())
}

/// The pixel at index `i` of a `buf_width` by `buf_height` buffer that shows
/// `img` centered on the background `bg`. Where the free space is odd, the
/// extra column goes right and the extra row goes to the bottom.
pub open spec fn centered(img: PictureModel, bg: u32, buf_width: u32, buf_height: u32, i: int) -> u32 {
    let left = (buf_width - img.width) / 2;
    let top = (buf_height - img.height) / 2;
    let row = i / buf_width as int;
    let col = i % buf_width as int;
    if top <= row < top + img.height && left <= col < left + img.width {
        img.pixels[(row - top) * img.width + (col - left)]
    } else {
        bg
    }
}

/// Draws `img` centered on background `bgpixel` into the `buf_width` by
/// `buf_height` buffer `buf`. Where `buf` is shorter than the whole buffer,
/// only what it holds is drawn; where it is longer, the rest is left as it is.
pub fn center_image_into(img: &Picture, bgpixel: u32, buf_width: u32, buf_height: u32, buf: &mut [u32])
    requires
        img@.width <= buf_width,
        img@.height <= buf_height,
    ensures
        final(buf)@.len() == old(buf)@.len(),
        forall|i: int|
            0 <= i < old(buf)@.len() ==> #[trigger] final(buf)@[i] == if i < buf_width * buf_height {
                centered(img@, bgpixel, buf_width, buf_height, i)
            } else {
                old(buf)@[i]
            },
{
    proof {
        use_type_invariant(img);
    }
    let w = buf_width as u64;
    let h = buf_height as u64;
    assert(w * h <= u32::MAX as u64 * u32::MAX as u64) by (nonlinear_arith)
        requires
            w <= u32::MAX,
            h <= u32::MAX,
    ;
    let total = w * h;
    let len = buf.len();
    let limit: usize = if (len as u64) < total {
        len
    } else {
        total as usize
    };
    let iw = img.width as usize;
    let ih = img.height as usize;
    let left = (buf_width - img.width) as usize / 2;
    let top = (buf_height - img.height) as usize / 2;
    let bw = buf_width as usize;
    let plen = img.pixels.len();
    let mut i: usize = 0;
    while i < limit
        invariant
            limit <= len,
            len == buf@.len(),
            len == old(buf)@.len(),
            limit == len || limit == buf_width * buf_height,
            limit <= buf_width * buf_height,
            i <= limit,
            iw == img@.width,
            ih == img@.height,
            bw == buf_width,
            left == (buf_width - img@.width) / 2,
            top == (buf_height - img@.height) / 2,
            img@.width <= buf_width,
            img@.height <= buf_height,
            img@.pixels.len() == img@.width * img@.height,
            plen == img@.pixels.len(),
            forall|j: int| 0 <= j < i ==> #[trigger] buf@[j] == centered(img@, bgpixel, buf_width, buf_height, j),
            forall|j: int| i <= j < len ==> #[trigger] buf@[j] == old(buf)@[j],
        decreases limit - i,
    {
        assert(bw > 0) by (nonlinear_arith)
            requires
                i < limit,
                limit <= buf_width * buf_height,
                bw == buf_width,
        ;
        let row = i / bw;
        let col = i % bw;
        let value = if top <= row && row < top + ih && left <= col && col < left + iw {
            let r = row - top;
            let c = col - left;
            assert(r * iw + c < plen) by (nonlinear_arith)
                requires
                    r < ih,
                    c < iw,
                    plen == iw * ih,
            ;
            img.pixels[r * iw + c]
        } else {
            bgpixel
        };
        buf[i] = value;
        i += 1;
    }
    proof {
        assert forall|j: int| 0 <= j < len implies #[trigger] buf@[j] == if j < buf_width * buf_height {
            centered(img@, bgpixel, buf_width, buf_height, j)
        } else {
            old(buf)@[j]
        } by {
            if j < i {
                assert(j < buf_width * buf_height);
            }
        }
    }
}

} // verus!
