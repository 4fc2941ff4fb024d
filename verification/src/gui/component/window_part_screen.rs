//! The page where the caster drags out the area of the screen to share:
//! the chosen rectangle is outlined on a screenshot.

use vstd::prelude::*;
use vstd::arithmetic::div_mod::lemma_fundamental_div_mod_converse;
use crate::socket::codec::{pixel_at, with_pixel, SerializableImage};

verus! {

pub open spec fn min_u32(a: u32, b: u32) -> u32 {
    if a < b { a } else { b }
}

pub open spec fn max_u32(a: u32, b: u32) -> u32 {
    if a < b { b } else { a }
}

/// Whether pixel (`x`, `y`) of a `width` x `height` image lies on the
/// outline, `thickness` pixels wide, of the rectangle with corners `start`
/// and `end` (clipped to the image).
pub open spec fn on_outline(width: u32, height: u32, start: (u32, u32), end: (u32, u32), thickness: u32, x: int, y: int) -> bool {
    let min_x = min_u32(start.0, end.0) as int;
    let max_x = min_u32(max_u32(start.0, end.0), (width - 1) as u32) as int;
    let min_y = min_u32(start.1, end.1) as int;
    let max_y = min_u32(max_u32(start.1, end.1), (height - 1) as u32) as int;
    &&& min_x <= x <= max_x
    &&& min_y <= y <= max_y
    &&& (x < min_x + thickness || x > max_x - thickness || y < min_y + thickness || y > max_y - thickness)
}

/// Pixel `p` of `new` is `color` when it lies on the outline and comes
/// before pixel `done` (row by row), and is pixel `p` of `old` otherwise.
pub open spec fn outline_pixel(old: Seq<u8>, new: Seq<u8>, width: u32, height: u32, start: (u32, u32), end: (u32, u32),
    thickness: u32, color: Seq<u8>, p: int, done: int) -> bool {
    pixel_at(new, p) == if on_outline(width, height, start, end, thickness, p % (width as int), p / (width as int)) && p < done {
        color
    } else {
        pixel_at(old, p)
    }
}

/// Pixels before row `row` have a smaller row, the others a row at least
/// `row`; every column is below the width.
proof fn lemma_below_row(width: u32, p: int, row: int)
    requires
        width > 0,
        0 <= p,
    ensures
        p < row * width ==> p / (width as int) < row,
        p >= row * width ==> p / (width as int) >= row,
        0 <= p % (width as int) < width,
{
    let w = width as int;
    assert(p == (p / w) * w + p % w && 0 <= p % w < w) by (nonlinear_arith)
        requires w > 0;
    if p < row * w {
        assert(p / w < row) by (nonlinear_arith)
            requires p < row * w, p == (p / w) * w + p % w, 0 <= p % w, w > 0;
    } else {
        assert(p / w >= row) by (nonlinear_arith)
            requires p >= row * w, p == (p / w) * w + p % w, p % w < w, w > 0;
    }
}

/// Pixel `p` of row `row` has that row, and its offset in the row as its
/// column.
proof fn lemma_in_row(width: u32, p: int, row: int)
    requires
        width > 0,
        0 <= row,
        row * width <= p < row * width + width,
    ensures
        p / (width as int) == row,
        p % (width as int) == p - row * width,
{
    lemma_fundamental_div_mod_converse(p, width as int, row, p - row * width);
}

/// The pixel at column `x` of row `y` has that column and row.
proof fn lemma_pixel_index(width: u32, x: int, y: int)
    requires
        width > 0,
        0 <= x < width,
    ensures
        (y * width + x) % (width as int) == x,
        (y * width + x) / (width as int) == y,
{
    lemma_fundamental_div_mod_converse(y * width + x, width as int, y, x);
}

/// Outlines the rectangle with corners `start` and `end` on `image`, in
/// `color`, `thickness` pixels wide, clipped to the image; the other
/// pixels stay as they were.
pub fn draw_rectangle_on_image(image: &mut SerializableImage, start: (u32, u32), end: (u32, u32), color: [u8; 4], thickness: u32)
    requires
        old(image)@.0 > 0,
        old(image)@.1 > 0,
        old(image)@.2.len() == old(image)@.0 * old(image)@.1 * 4,
    ensures
        final(image)@.0 == old(image)@.0,
        final(image)@.1 == old(image)@.1,
        final(image)@.2.len() == old(image)@.2.len(),
        forall|p: int| 0 <= p < old(image)@.0 * old(image)@.1 ==> #[trigger] pixel_at(final(image)@.2, p) == if on_outline(
            old(image)@.0, old(image)@.1, start, end, thickness, p % (old(image)@.0 as int), p / (old(image)@.0 as int)) {
            color@
        } else {
            pixel_at(old(image)@.2, p)
        },
{
    let ghost initial = image@.2;
    let width = image.width();
    let height = image.height();
    let (x1, y1) = start;
    let (x2, y2) = end;
    let min_x = if x1 < x2 { x1 } else { x2 };
    let max_x_raw = if x1 < x2 { x2 } else { x1 };
    let max_x = if max_x_raw < width - 1 { max_x_raw } else { width - 1 };
    let min_y = if y1 < y2 { y1 } else { y2 };
    let max_y_raw = if y1 < y2 { y2 } else { y1 };
    let max_y = if max_y_raw < height - 1 { max_y_raw } else { height - 1 };
    let t = thickness as u64;
    let ghost pixels = width * height;
    let n = image.data().len();
    if min_x > max_x || min_y > max_y {
        assert forall|p: int| 0 <= p < pixels implies #[trigger] pixel_at(image@.2, p) == if on_outline(width, height, start,
            end, thickness, p % (width as int), p / (width as int)) {
            color@
        } else {
            pixel_at(initial, p)
        } by {
        }
        return;
    }
    let ghost mut done: int = (min_y as int) * width;
    assert forall|p: int| 0 <= p < pixels implies #[trigger] outline_pixel(initial, image@.2, width, height, start, end,
        thickness, color@, p, done) by {
        if p < done {
            lemma_below_row(width, p, min_y as int);
        }
    }
    let mut y: u64 = min_y as u64;
    while y <= max_y as u64
        invariant
            image@.0 == width,
            image@.1 == height,
            width > 0,
            height > 0,
            image@.2.len() == initial.len(),
            initial.len() == width * height * 4,
            pixels == width * height,
            pixels * 4 <= usize::MAX,
            min_x <= max_x,
            min_x == min_u32(start.0, end.0),
            max_x == min_u32(max_u32(start.0, end.0), (width - 1) as u32),
            min_y == min_u32(start.1, end.1),
            max_y == min_u32(max_u32(start.1, end.1), (height - 1) as u32),
            t == thickness,
            min_y <= y,
            y <= max_y + 1,
            max_y < height,
            done == (y as int) * width,
            forall|p: int| 0 <= p < pixels ==> #[trigger] outline_pixel(initial, image@.2, width, height, start, end,
                thickness, color@, p, done),
        decreases max_y + 1 - y,
    {
        let ghost row_start = done;
        proof {
            done = (y as int) * width + min_x;
        }
        assert forall|p: int| 0 <= p < pixels implies #[trigger] outline_pixel(initial, image@.2, width, height, start,
            end, thickness, color@, p, done) by {
            assert(outline_pixel(initial, image@.2, width, height, start, end, thickness, color@, p, row_start));
            if row_start <= p < done {
                lemma_in_row(width, p, y as int);
            }
        }
        let mut x: u64 = min_x as u64;
        while x <= max_x as u64
            invariant
                image@.0 == width,
                image@.1 == height,
                width > 0,
                height > 0,
                image@.2.len() == initial.len(),
                initial.len() == width * height * 4,
                pixels == width * height,
                pixels * 4 <= usize::MAX,
                min_x <= max_x,
                min_x == min_u32(start.0, end.0),
                max_x == min_u32(max_u32(start.0, end.0), (width - 1) as u32),
                min_y == min_u32(start.1, end.1),
                max_y == min_u32(max_u32(start.1, end.1), (height - 1) as u32),
                t == thickness,
                min_y <= y <= max_y,
                max_y < height,
                max_x < width,
                min_x <= x,
                x <= max_x + 1,
                done == (y as int) * width + x,
                forall|p: int| 0 <= p < pixels ==> #[trigger] outline_pixel(initial, image@.2, width, height, start, end,
                    thickness, color@, p, done),
            decreases max_x + 1 - x,
        {
            let is_border = (x >= min_x as u64 && x < min_x as u64 + t)
                || (x <= max_x as u64 && x + t > max_x as u64)
                || (y >= min_y as u64 && y < min_y as u64 + t)
                || (y <= max_y as u64 && y + t > max_y as u64);
            let ghost before = image@.2;
            proof {
                lemma_pixel_index(width, x as int, y as int);
                assert((y as int) * width + x < pixels) by (nonlinear_arith)
                    requires y < height, x < width, pixels == width * height;
                assert((y as int) * width <= pixels) by (nonlinear_arith)
                    requires y < height, pixels == width * height;
            }
            let index = (y as usize) * (width as usize) + (x as usize);
            if is_border {
                image.set_pixel(index, color);
            }
            proof {
                done = done + 1;
            }
            assert forall|p: int| 0 <= p < pixels implies #[trigger] outline_pixel(initial, image@.2, width, height, start,
                end, thickness, color@, p, done) by {
                assert(outline_pixel(initial, before, width, height, start, end, thickness, color@, p, done - 1));
                if p == index as int {
                    assert(pixel_at(image@.2, p) =~= if is_border { color@ } else { pixel_at(before, p) });
                } else {
                    assert(pixel_at(image@.2, p) =~= pixel_at(before, p));
                }
            }
            x = x + 1;
        }
        assert(x == max_x + 1);
        let ghost row_done = done;
        assert(row_done == (y as int) * width + max_x + 1);
        proof {
            done = (y as int + 1) * width;
            assert((y as int + 1) * width == (y as int) * width + width) by (nonlinear_arith);
        }
        assert forall|p: int| 0 <= p < pixels implies #[trigger] outline_pixel(initial, image@.2, width, height, start,
            end, thickness, color@, p, done) by {
            assert(outline_pixel(initial, image@.2, width, height, start, end, thickness, color@, p, row_done));
            if row_done <= p < done {
                lemma_in_row(width, p, y as int);
            }
        }
        y = y + 1;
    }
    assert(done == (max_y as int + 1) * width);
    assert forall|p: int| 0 <= p < pixels implies #[trigger] pixel_at(image@.2, p) == if on_outline(width, height, start,
        end, thickness, p % (width as int), p / (width as int)) {
        color@
    } else {
        pixel_at(initial, p)
    } by {
        assert(outline_pixel(initial, image@.2, width, height, start, end, thickness, color@, p, done));
        if p >= done {
            lemma_below_row(width, p, (max_y + 1) as int);
        }
    }
}


/// The outline does not depend on which two opposite corners mark the
/// rectangle, nor in which order: swapping the corners, or taking the other
/// diagonal, outlines the same pixels.
pub proof fn lemma_outline_corner_order(width: u32, height: u32, start: (u32, u32), end: (u32, u32), thickness: u32, x: int, y: int)
    ensures
        on_outline(width, height, start, end, thickness, x, y) == on_outline(width, height, end, start, thickness, x, y),
        on_outline(width, height, start, end, thickness, x, y)
            == on_outline(width, height, (start.0, end.1), (end.0, start.1), thickness, x, y),
{
}

/// Every pixel of the image on the border of the box between the two
/// corners is outlined (for a thickness of at least one pixel), and no
/// pixel outside that box or outside the image is.
pub proof fn lemma_outline_on_box_border(width: u32, height: u32, start: (u32, u32), end: (u32, u32), thickness: u32, x: int, y: int)
    requires
        width > 0,
        height > 0,
    ensures
        ({
            let lo_x: int = if start.0 <= end.0 { start.0 as int } else { end.0 as int };
            let hi_x: int = if start.0 <= end.0 { end.0 as int } else { start.0 as int };
            let lo_y: int = if start.1 <= end.1 { start.1 as int } else { end.1 as int };
            let hi_y: int = if start.1 <= end.1 { end.1 as int } else { start.1 as int };
            &&& (thickness >= 1 && lo_x <= x <= hi_x && lo_y <= y <= hi_y && x < width && y < height
                && (x == lo_x || x == hi_x || y == lo_y || y == hi_y))
                ==> on_outline(width, height, start, end, thickness, x, y)
            &&& on_outline(width, height, start, end, thickness, x, y)
                ==> lo_x <= x <= hi_x && lo_y <= y <= hi_y && 0 <= x < width && 0 <= y < height
        }),
{
}

} // verus!
