//! Row-major RGBA pixel buffers, as handed to the renderer to draw a colour box.
//!
//! A buffer for a box of side `width` holds `width * width` pixels of four bytes
//! each (red, green, blue, alpha); pixel `(x, y)` starts at byte `(y * width + x) * 4`.
//! Rows that are never painted keep the initial value `255` in every byte.
use vstd::prelude::*;

verus! {

/// Side, in pixels, of the square colour box of the HSL picker.
pub const HSL_BOX_SIZE: usize = 256;

/// Side, in pixels, of the square colour box of the radial-basis-function demo.
pub const RBF_BOX_SIZE: usize = 320;

/// Value of every byte of a fresh buffer (opaque white).
pub const BLANK_BYTE: u8 = 255;

/// Number of bytes of the buffer of a square box of the given side.
pub open spec fn image_len(width: int) -> int {
    width * width * 4
}

/// Byte offset of pixel `(x, y)` in a row-major RGBA buffer of the given width.
pub open spec fn pixel_offset(width: int, x: int, y: int) -> int {
    (y * width + x) * 4
}

/// The four bytes of pixel `(x, y)`.
pub open spec fn pixel_at(image: Seq<u8>, width: int, x: int, y: int) -> (u8, u8, u8, u8) {
    let o = pixel_offset(width, x, y);
    (image[o], image[o + 1], image[o + 2], image[o + 3])
}

/// The offset of pixel `(x, y)` is `(y * width + x) * 4`: rows follow one
/// another, and within a row the pixels run left to right, four bytes each.
pub proof fn lemma_pixel_offset_is_row_major(width: int, x: int, y: int)
    ensures
        pixel_offset(width, x, y) == (y * width + x) * 4,
        pixel_offset(width, x + 1, y) == pixel_offset(width, x, y) + 4,
        pixel_offset(width, 0, y + 1) == pixel_offset(width, 0, y) + width * 4,
        image_len(width) == width * width * 4,
{
    assert((y + 1) * width == y * width + width) by (nonlinear_arith);
}

/// The pixel at `(x, y)` reads, in this order, its red, green, blue and alpha
/// bytes from `(y * width + x) * 4` and the three bytes that follow it.
pub proof fn lemma_pixel_at_reads_channels_in_order(image: Seq<u8>, width: int, x: int, y: int)
    ensures
        pixel_at(image, width, x, y).0 == image[(y * width + x) * 4],
        pixel_at(image, width, x, y).1 == image[(y * width + x) * 4 + 1],
        pixel_at(image, width, x, y).2 == image[(y * width + x) * 4 + 2],
        pixel_at(image, width, x, y).3 == image[(y * width + x) * 4 + 3],
{
}

/// Every pixel of a square box lies wholly inside the box's buffer.
pub proof fn lemma_pixel_inside_image(width: int, x: int, y: int)
    requires
        0 <= x < width,
        0 <= y < width,
    ensures
        0 <= pixel_offset(width, x, y),
        pixel_offset(width, x, y) + 4 <= image_len(width),
{
    assert(0 <= y * width) by (nonlinear_arith)
        requires
            0 <= y,
            0 <= width,
    ;
    assert(y * width + width <= width * width) by (nonlinear_arith)
        requires
            0 <= y < width,
    ;
}

/// Two different pixels of a row of `width` pixels own disjoint four-byte slots,
/// and the slot of the pixel that comes first in row-major order comes first.
pub proof fn lemma_pixel_slots_disjoint(width: int, x1: int, y1: int, x2: int, y2: int)
    requires
        0 <= x1 < width,
        0 <= x2 < width,
        0 <= y1,
        0 <= y2,
        y1 < y2 || (y1 == y2 && x1 < x2),
    ensures
        pixel_offset(width, x1, y1) + 4 <= pixel_offset(width, x2, y2),
{
    if y1 < y2 {
        assert(y1 * width + width <= y2 * width) by (nonlinear_arith)
            requires
                y1 < y2,
                0 <= width,
        ;
    }
}

/// The first byte of row `y + 1` follows the last pixel of row `y`.
proof fn lemma_next_row(width: int, y: int)
    ensures
        pixel_offset(width, width, y) == pixel_offset(width, 0, y + 1),
{
    assert((y + 1) * width == y * width + width) by (nonlinear_arith);
}

/// Paints a square box of side `width` row by row, for the first `height` rows,
/// with the colour that `color_at` gives for each pixel `(x, y)`.
///
/// The buffer holds `width * width` pixels; the rows from `height` on keep the
/// blank byte. `height` may not exceed `width`: the pixels of such rows would lie
/// outside the buffer.
pub fn render_image<F: Fn(usize, usize) -> (u8, u8, u8, u8)>(
    width: usize,
    height: usize,
    color_at: F,
) -> (image: Vec<u8>)
    requires
        width * width * 4 <= usize::MAX,
        height <= width,
        forall|x: usize, y: usize| x < width && y < height ==> call_requires(color_at, (x, y)),
    ensures
        image@.len() == image_len(width as int),
        forall|x: usize, y: usize|
            x < width && y < height ==> call_ensures(
                color_at,
                (x, y),
                #[trigger] pixel_at(image@, width as int, x as int, y as int),
            ),
        forall|i: int|
            pixel_offset(width as int, 0, height as int) <= i < image@.len() ==> image@[i]
                == BLANK_BYTE,
        image@.len() == width * width * 4,
        forall|x: usize, y: usize|
            #![trigger image@[(y * width + x) * 4]]
            x < width && y < height ==> call_ensures(
                color_at,
                (x, y),
                (
                    image@[(y * width + x) * 4],
                    image@[(y * width + x) * 4 + 1],
                    image@[(y * width + x) * 4 + 2],
                    image@[(y * width + x) * 4 + 3],
                ),
            ),
        forall|i: int| height * width * 4 <= i < image@.len() ==> image@[i] == 255,
{
    let len: usize = width * width * 4;
    let mut image: Vec<u8> = vec![BLANK_BYTE; len];
    let ghost w = width as int;
    let mut y: usize = 0;
    while y < height
        invariant
            width * width * 4 <= usize::MAX,
            len == width * width * 4,
            height <= width,
            forall|x: usize, y: usize| x < width && y < height ==> call_requires(color_at, (x, y)),
            w == width,
            y <= height,
            image@.len() == image_len(w),
            forall|xx: usize, yy: usize|
                xx < width && yy < y ==> call_ensures(
                    color_at,
                    (xx, yy),
                    #[trigger] pixel_at(image@, w, xx as int, yy as int),
                ),
            forall|i: int| pixel_offset(w, 0, y as int) <= i < image@.len() ==> image@[i] == BLANK_BYTE,
        decreases height - y,
    {
        let mut x: usize = 0;
        while x < width
            invariant
                width * width * 4 <= usize::MAX,
                height <= width,
                forall|x: usize, y: usize|
                    x < width && y < height ==> call_requires(color_at, (x, y)),
                w == width,
                y < height,
                x <= width,
                image@.len() == image_len(w),
                forall|xx: usize, yy: usize|
                    xx < width && yy < y ==> call_ensures(
                        color_at,
                        (xx, yy),
                        #[trigger] pixel_at(image@, w, xx as int, yy as int),
                    ),
                forall|xx: usize|
                    xx < x ==> call_ensures(
                        color_at,
                        (xx, y),
                        #[trigger] pixel_at(image@, w, xx as int, y as int),
                    ),
                forall|i: int|
                    pixel_offset(w, x as int, y as int) <= i < image@.len() ==> image@[i]
                        == BLANK_BYTE,
            decreases width - x,
        {
            proof {
                lemma_pixel_inside_image(w, x as int, y as int);
            }
            let ix: usize = (y * width + x) * 4;
            let color = color_at(x, y);
            let ghost before = image@;
            image.set(ix, color.0);
            image.set(ix + 1, color.1);
            image.set(ix + 2, color.2);
            image.set(ix + 3, color.3);
            proof {
                assert(pixel_at(image@, w, x as int, y as int) == color);
                assert forall|xx: usize, yy: usize| xx < width && yy < y implies call_ensures(
                    color_at,
                    (xx, yy),
                    #[trigger] pixel_at(image@, w, xx as int, yy as int),
                ) by {
                    lemma_pixel_slots_disjoint(w, xx as int, yy as int, x as int, y as int);
                    lemma_pixel_inside_image(w, xx as int, yy as int);
                    assert(pixel_at(image@, w, xx as int, yy as int) == pixel_at(
                        before,
                        w,
                        xx as int,
                        yy as int,
                    ));
                }
                assert forall|xx: usize| xx < x + 1 implies call_ensures(
                    color_at,
                    (xx, y),
                    #[trigger] pixel_at(image@, w, xx as int, y as int),
                ) by {
                    if xx < x {
                        lemma_pixel_slots_disjoint(w, xx as int, y as int, x as int, y as int);
                        lemma_pixel_inside_image(w, xx as int, y as int);
                        assert(pixel_at(image@, w, xx as int, y as int) == pixel_at(
                            before,
                            w,
                            xx as int,
                            y as int,
                        ));
                    }
                }
            }
            x = x + 1;
        }
        proof {
            lemma_next_row(w, y as int);
            assert forall|xx: usize, yy: usize| xx < width && yy < y + 1 implies call_ensures(
                color_at,
                (xx, yy),
                #[trigger] pixel_at(image@, w, xx as int, yy as int),
            ) by {
                if yy == y {
                    assert(xx < x);
                }
            }
        }
        y = y + 1;
    }
    proof {
        assert forall|px: usize, py: usize|
            #![trigger image@[(py * width + px) * 4]]
            px < width && py < height implies call_ensures(
                color_at,
                (px, py),
                (
                    image@[(py * width + px) * 4],
                    image@[(py * width + px) * 4 + 1],
                    image@[(py * width + px) * 4 + 2],
                    image@[(py * width + px) * 4 + 3],
                ),
            ) by {
            lemma_pixel_at_reads_channels_in_order(image@, w, px as int, py as int);
        }
        lemma_pixel_offset_is_row_major(w, 0, height as int);
    }
    image
}

} // verus!
