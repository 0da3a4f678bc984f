use vstd::prelude::*;

use vstd::arithmetic::div_mod::{lemma_fundamental_div_mod, lemma_fundamental_div_mod_converse};

verus! {

/// An image placed at (`x`, `y`) on a frame buffer: `width` by `height`
/// pixels, row by row, each packed as `0xAARRGGBB`.
pub struct Image {
    pub x: usize,
    pub y: usize,
    pub image_data: Vec<u32>,
    pub width: usize,
    pub height: usize,
}

/// The pixel of red, green, blue and alpha bytes, packed as `0xAARRGGBB`.
pub open spec fn packed(r: u8, g: u8, b: u8, a: u8) -> u32 {
    (a * 0x100_0000int + r * 0x1_0000int + g * 0x100int + b) as u32
}

/// The pixels of RGBA bytes (four a pixel), packed.
pub open spec fn packed_pixels(rgba: Seq<u8>) -> Seq<u32> {
    Seq::new(rgba.len() / 4, |k: int| packed(rgba[4 * k], rgba[4 * k + 1], rgba[4 * k + 2], rgba[4 * k + 3]))
}

/// Resizes an RGBA image (four bytes a pixel, row by row) of `width` by
/// `height` pixels to `new_width` by `new_height` with
/// `image::imageops::resize` and the Lanczos3 filter, and returns the new
/// bytes.  The source shows a result of four bytes for each new pixel; the
/// bytes themselves come out of floating-point filtering (the kernel calls
/// the machine's sine), and nothing is said of them.
#[verifier::external_body]
fn resize_rgba(rgba: Vec<u8>, width: u32, height: u32, new_width: u32, new_height: u32) -> (resized: Vec<u8>)
    requires
        width > 0,
        height > 0,
        rgba@.len() == 4 * width * height,
        4 * width * new_height <= usize::MAX,
        4 * new_width * new_height <= usize::MAX,
    ensures
        resized@.len() == 4 * new_width * new_height,
{
    let source = image::RgbaImage::from_raw(width, height, rgba).unwrap();
    image::imageops::resize(&source, new_width, new_height, image::imageops::FilterType::Lanczos3).into_raw()
}

/// Packs RGBA bytes (four a pixel) into pixels `0xAARRGGBB`.
pub fn pack_rgba(rgba: &Vec<u8>) -> (pixels: Vec<u32>)
    requires
        rgba@.len() % 4 == 0,
    ensures
        pixels@ == packed_pixels(rgba@),
{
    let n = rgba.len() / 4;
    let mut pixels: Vec<u32> = Vec::new();
    let mut k: usize = 0;
    while k < n
        invariant
            k <= n,
            n == rgba@.len() / 4,
            rgba@.len() % 4 == 0,
            rgba@.len() <= usize::MAX,
            pixels@ == packed_pixels(rgba@).take(k as int),
        decreases n - k,
    {
        let r = rgba[4 * k];
        let g = rgba[4 * k + 1];
        let b = rgba[4 * k + 2];
        let a = rgba[4 * k + 3];
        let pixel = ((a as u32) << 24u32) | ((r as u32) << 16u32) | ((g as u32) << 8u32) | (b as u32);
        assert(pixel == packed(r, g, b, a)) by (bit_vector)
            requires
                pixel == ((a as u32) << 24u32) | ((r as u32) << 16u32) | ((g as u32) << 8u32) | (b as u32),
        ;
        pixels.push(pixel);
        k = k + 1;
        assert(pixels@ =~= packed_pixels(rgba@).take(k as int));
    }
    assert(pixels@ =~= packed_pixels(rgba@));
    pixels
}

/// The image's pixels: the RGBA image resized to the target size, then
/// packed.
fn load_image_as_u32(rgba: Vec<u8>, width: u32, height: u32, target_width: usize, target_height: usize) -> (pixels: Vec<u32>)
    requires
        width > 0,
        height > 0,
        rgba@.len() == 4 * width * height,
        target_width <= u32::MAX,
        target_height <= u32::MAX,
        4 * width * target_height <= usize::MAX,
        4 * target_width * target_height <= usize::MAX,
    ensures
        pixels@.len() == target_width * target_height,
        exists|resized: Seq<u8>|
            resized.len() == 4 * target_width * target_height && pixels@ == #[trigger] packed_pixels(resized),
{
    let resized = resize_rgba(rgba, width, height, target_width as u32, target_height as u32);
    proof {
        let pixel_count = target_width * target_height;
        assert(resized@.len() == pixel_count * 4 + 0) by (nonlinear_arith)
            requires
                resized@.len() == 4 * target_width * target_height,
                pixel_count == target_width * target_height,
        ;
        lemma_fundamental_div_mod_converse(resized@.len() as int, 4, pixel_count, 0);
    }
    let pixels = pack_rgba(&resized);
    assert(pixels@ == packed_pixels(resized@));
    pixels
}

/// Pixel `i`, at column `i % bw` and row `i / bw`, of a buffer `bw` pixels
/// wide and `bh` high, lies in the buffer and under `img`.
pub open spec fn covers(img: Image, i: int, bw: int, bh: int) -> bool {
    &&& 0 <= i < bw * bh
    &&& img.x <= i % bw < img.x + img.width
    &&& img.y <= i / bw < img.y + img.height
}

impl Image {
    /// One packed pixel for each of the `width` times `height` pixels.
    pub open spec fn wf(&self) -> bool {
        self.image_data@.len() == self.width * self.height
    }

    /// The image's pixel over pixel `i` of a buffer `bw` pixels wide.
    pub open spec fn pixel_over(&self, i: int, bw: int) -> u32 {
        self.image_data@[(i / bw - self.y) * self.width + (i % bw - self.x)]
    }

    /// The image paints pixel `i` of a `bw` by `bh` buffer: it covers the
    /// pixel there, and its pixel is not fully transparent (its alpha, the
    /// top byte, is not 0).
    pub open spec fn paints(&self, i: int, bw: int, bh: int) -> bool {
        covers(*self, i, bw, bh) && self.pixel_over(i, bw) >> 24u32 != 0
    }

    /// An image at (`image_x`, `image_y`) of `image_w` by `image_h` pixels:
    /// the RGBA image given (`width` by `height` pixels, four bytes a pixel)
    /// resized to that size.
    pub fn new(
        rgba: Vec<u8>,
        width: u32,
        height: u32,
        image_x: usize,
        image_y: usize,
        image_w: usize,
        image_h: usize,
    ) -> (img: Image)
        requires
            width > 0,
            height > 0,
            rgba@.len() == 4 * width * height,
            image_w <= u32::MAX,
            image_h <= u32::MAX,
            4 * width * image_h <= usize::MAX,
            4 * image_w * image_h <= usize::MAX,
        ensures
            img.wf(),
            img.x == image_x,
            img.y == image_y,
            img.width == image_w,
            img.height == image_h,
            exists|resized: Seq<u8>|
                resized.len() == 4 * image_w * image_h && img.image_data@ == #[trigger] packed_pixels(resized),
    {
        let image_data = load_image_as_u32(rgba, width, height, image_w, image_h);
        Image { x: image_x, y: image_y, image_data, width: image_w, height: image_h }
    }

    /// The buffer after the image is drawn on it.
    pub open spec fn drawn_on(&self, buffer: Seq<u32>, bw: int, bh: int) -> Seq<u32> {
        Seq::new(
            buffer.len(),
            |i: int|
                if self.paints(i, bw, bh) {
                    self.pixel_over(i, bw)
                } else {
                    buffer[i]
                },
        )
    }

    /// Moves the image to (`new_x`, `new_y`).
    pub fn change(&mut self, new_x: usize, new_y: usize)
        ensures
            *final(self) == (Image { x: new_x, y: new_y, ..*old(self) }),
    {
        self.x = new_x;
        self.y = new_y;
    }

    /// Draws the image on a frame buffer `buffer_width` pixels wide and
    /// `buffer_height` high: every pixel it paints takes the image's pixel,
    /// the others keep theirs.
    pub fn draw(&self, buffer: &mut [u32], buffer_width: usize, buffer_height: usize)
        requires
            self.image_data@.len() >= self.width * self.height,
            self.width > 0 && self.height > 0 ==> self.x + self.width - 1 <= usize::MAX && self.y
                + self.height - 1 <= usize::MAX,
            forall|i: int| #[trigger] covers(*self, i, buffer_width as int, buffer_height as int) ==> i <= usize::MAX,
            forall|i: int| #[trigger] self.paints(i, buffer_width as int, buffer_height as int) ==> i < old(buffer)@.len(),
        ensures
            final(buffer)@ == self.drawn_on(old(buffer)@, buffer_width as int, buffer_height as int),
            final(buffer)@.len() == old(buffer)@.len(),
            forall|i: int|
                0 <= i < old(buffer)@.len() ==> #[trigger] final(buffer)@[i] == if self.paints(
                    i,
                    buffer_width as int,
                    buffer_height as int,
                ) {
                    self.pixel_over(i, buffer_width as int)
                } else {
                    old(buffer)@[i]
                },
    {
        let ghost bw = buffer_width as int;
        let ghost bh = buffer_height as int;
        let ghost b0 = buffer@;
        let mut y: usize = 0;
        while y < self.height
            invariant
                y <= self.height,
                self.image_data@.len() >= self.width * self.height,
                bw == buffer_width,
                bh == buffer_height,
                b0 == old(buffer)@,
                self.width > 0 && self.height > 0 ==> self.x + self.width - 1 <= usize::MAX && self.y
                    + self.height - 1 <= usize::MAX,
                forall|i: int| #[trigger] covers(*self, i, bw, bh) ==> i <= usize::MAX,
                forall|i: int| #[trigger] self.paints(i, bw, bh) ==> i < b0.len(),
                buffer@.len() == b0.len(),
                forall|i: int|
                    0 <= i < b0.len() ==> #[trigger] buffer@[i] == if self.paints(i, bw, bh) && i / bw < self.y + y {
                        self.pixel_over(i, bw)
                    } else {
                        b0[i]
                    },
            decreases self.height - y,
        {
            let mut x: usize = 0;
            while x < self.width
                invariant
                    x <= self.width,
                    y < self.height,
                    self.image_data@.len() >= self.width * self.height,
                    bw == buffer_width,
                    bh == buffer_height,
                    self.width > 0 && self.height > 0 ==> self.x + self.width - 1 <= usize::MAX
                        && self.y + self.height - 1 <= usize::MAX,
                    forall|i: int| #[trigger] covers(*self, i, bw, bh) ==> i <= usize::MAX,
                    forall|i: int| #[trigger] self.paints(i, bw, bh) ==> i < b0.len(),
                    buffer@.len() == b0.len(),
                    forall|i: int|
                        0 <= i < b0.len() ==> #[trigger] buffer@[i] == if self.paints(i, bw, bh) && (i / bw
                            < self.y + y || (i / bw == self.y + y && i % bw < self.x + x)) {
                            self.pixel_over(i, bw)
                        } else {
                            b0[i]
                        },
                decreases self.width - x,
            {
                let img_len = self.image_data.len();
                let buffer_x = self.x + x;
                let buffer_y = self.y + y;
                let ghost before = buffer@;
                if buffer_x < buffer_width && buffer_y < buffer_height {
                    let ghost cell = buffer_y * bw + buffer_x;
                    proof {
                        lemma_cell(bw, bh, buffer_x as int, buffer_y as int);
                        assert(covers(*self, cell, bw, bh));
                        lemma_pixel_in_image(self.width as int, self.height as int, x as int, y as int);
                    }
                    let buffer_idx = buffer_y * buffer_width + buffer_x;
                    let img_idx = y * self.width + x;
                    assert(self.pixel_over(cell, bw) == self.image_data@[img_idx as int]);
                    if self.image_data[img_idx] >> 24 != 0 {
                        assert(self.paints(cell, bw, bh));
                        buffer[buffer_idx] = self.image_data[img_idx];
                    }
                    assert forall|i: int| 0 <= i < b0.len() implies #[trigger] buffer@[i] == if self.paints(i, bw, bh) && (i
                        / bw < self.y + y || (i / bw == self.y + y && i % bw < self.x + x + 1)) {
                        self.pixel_over(i, bw)
                    } else {
                        b0[i]
                    } by {
                        if i != cell {
                            assert(buffer@[i] == before[i]);
                            if self.paints(i, bw, bh) && i / bw == self.y + y && i % bw == self.x + x {
                                lemma_fundamental_div_mod(i, bw);
                                assert(i == cell) by (nonlinear_arith)
                                    requires
                                        i == bw * (i / bw) + i % bw,
                                        i / bw == buffer_y,
                                        i % bw == buffer_x,
                                        cell == buffer_y * bw + buffer_x,
                                ;
                            }
                        }
                    }
                } else {
                    assert forall|i: int| 0 <= i < b0.len() implies #[trigger] buffer@[i] == if self.paints(i, bw, bh) && (i
                        / bw < self.y + y || (i / bw == self.y + y && i % bw < self.x + x + 1)) {
                        self.pixel_over(i, bw)
                    } else {
                        b0[i]
                    } by {
                        if self.paints(i, bw, bh) && i / bw == self.y + y && i % bw == self.x + x {
                            lemma_in_buffer(i, bw, bh);
                        }
                    }
                }
                x = x + 1;
            }
            y = y + 1;
        }
        assert(buffer@ =~= self.drawn_on(b0, bw, bh));
    }
}

/// Drawing an image a second time changes nothing more.
pub proof fn lemma_draw_twice(img: Image, buffer: Seq<u32>, bw: int, bh: int)
    ensures
        img.drawn_on(img.drawn_on(buffer, bw, bh), bw, bh) == img.drawn_on(buffer, bw, bh),
{
    assert(img.drawn_on(img.drawn_on(buffer, bw, bh), bw, bh) =~= img.drawn_on(buffer, bw, bh));
}

/// An image placed right of the buffer's last column, or below its last
/// row, leaves the buffer as it was.
pub proof fn lemma_draw_off_buffer(img: Image, buffer: Seq<u32>, bw: int, bh: int)
    requires
        bw >= 0,
        img.x >= bw || img.y >= bh,
    ensures
        img.drawn_on(buffer, bw, bh) == buffer,
{
    assert forall|i: int| 0 <= i < buffer.len() implies !img.paints(i, bw, bh) by {
        if covers(img, i, bw, bh) {
            lemma_in_buffer(i, bw, bh);
        }
    }
    assert(img.drawn_on(buffer, bw, bh) =~= buffer);
}

/// The pixel at column `c` and row `r` of a `w` by `h` buffer is pixel
/// `r * w + c`, which lies in the buffer.
proof fn lemma_cell(w: int, h: int, c: int, r: int)
    requires
        0 <= c < w,
        0 <= r < h,
    ensures
        (r * w + c) % w == c,
        (r * w + c) / w == r,
        0 <= r * w + c < w * h,
{
    lemma_fundamental_div_mod_converse(r * w + c, w, r, c);
    assert(0 <= r * w + c < w * h) by (nonlinear_arith)
        requires
            0 <= c < w,
            0 <= r < h,
    ;
}

/// A pixel of a `w` by `h` buffer has its column below `w` and its row
/// below `h`.
proof fn lemma_in_buffer(i: int, w: int, h: int)
    requires
        w >= 0,
        0 <= i < w * h,
    ensures
        0 <= i % w < w,
        0 <= i / w < h,
{
    assert(w > 0) by (nonlinear_arith)
        requires
            w >= 0,
            0 <= i < w * h,
    ;
    lemma_fundamental_div_mod(i, w);
    assert(0 <= i / w < h) by (nonlinear_arith)
        requires
            0 <= i < w * h,
            w > 0,
            i == w * (i / w) + i % w,
            0 <= i % w < w,
    ;
}

/// Pixel (`c`, `r`) of a `w` by `h` image is among its `w * h` pixels.
proof fn lemma_pixel_in_image(w: int, h: int, c: int, r: int)
    requires
        0 <= c < w,
        0 <= r < h,
    ensures
        0 <= r * w + c < w * h,
{
    assert(0 <= r * w + c < w * h) by (nonlinear_arith)
        requires
            0 <= c < w,
            0 <= r < h,
    ;
}

} // verus!
