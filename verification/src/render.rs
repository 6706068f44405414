//! Mapping an RGB sample grid onto a rectangle of terminal cells by
//! nearest-neighbor resampling, one solid color per target cell.
//!
//! The painted row is flipped (`target_height - 1 - y`) because the rendering
//! surface counts rows bottom-up while the grid stores its top row first.

use vstd::arithmetic::div_mod::{lemma_div_pos_is_pos, lemma_multiply_divide_lt};
use vstd::arithmetic::mul::{
    lemma_mul_inequality, lemma_mul_is_commutative, lemma_mul_is_distributive_sub_other_way,
    lemma_mul_nonnegative, lemma_mul_strict_inequality,
};
use vstd::prelude::*;

use crate::pixel::{Image, ImageModel};

verus! {

/// One painted terminal cell: column, display row (bottom-up), and the solid
/// color it is filled with.
pub struct CellColor {
    pub x: u16,
    pub y: u16,
    pub red: u8,
    pub green: u8,
    pub blue: u8,
}

/// Source column sampled for target column `x`.
pub open spec fn src_col(x: int, image_w: int, target_w: int) -> int {
    x * image_w / target_w
}

/// Source row sampled for target row `y`.
pub open spec fn src_row(y: int, image_h: int, target_h: int) -> int {
    y * image_h / target_h
}

/// Row-major index of the sample that target cell `(x, y)` takes its color
/// from.
pub open spec fn src_index(x: int, y: int, img: ImageModel, target_w: int, target_h: int) -> int {
    src_row(y, img.height, target_h) * img.width + src_col(x, img.width, target_w)
}

/// The cell painted at target position `(x, y)` (`y` counted top-down): its
/// display row is flipped and its color is the nearest source sample.
pub open spec fn cell_at(img: ImageModel, target_w: int, target_h: int, x: int, y: int) -> CellColor {
    let p = img.pixels[src_index(x, y, img, target_w, target_h)];
    CellColor {
        x: x as u16,
        y: (target_h - 1 - y) as u16,
        red: p.0,
        green: p.1,
        blue: p.2,
    }
}

/// Every target cell of a positive target rectangle samples inside the grid:
/// its source index is within `[0, width * height)`.
pub proof fn lemma_src_index_in_bounds(
    x: int,
    y: int,
    img: ImageModel,
    target_w: int,
    target_h: int,
)
    requires
        img.wf(),
        0 <= x < target_w,
        0 <= y < target_h,
    ensures
        0 <= src_col(x, img.width, target_w) < img.width,
        0 <= src_row(y, img.height, target_h) < img.height,
        0 <= src_index(x, y, img, target_w, target_h) < img.width * img.height,
{
    let iw = img.width;
    let ih = img.height;
    lemma_mul_nonnegative(x, iw);
    lemma_div_pos_is_pos(x * iw, target_w);
    lemma_mul_strict_inequality(x, target_w, iw);
    lemma_mul_is_commutative(target_w, iw);
    lemma_multiply_divide_lt(x * iw, target_w, iw);
    lemma_mul_nonnegative(y, ih);
    lemma_div_pos_is_pos(y * ih, target_h);
    lemma_mul_strict_inequality(y, target_h, ih);
    lemma_mul_is_commutative(target_h, ih);
    lemma_multiply_divide_lt(y * ih, target_h, ih);
    let sx = src_col(x, iw, target_w);
    let sy = src_row(y, ih, target_h);
    lemma_mul_nonnegative(sy, iw);
    lemma_mul_inequality(sy, ih - 1, iw);
    lemma_mul_is_distributive_sub_other_way(iw, ih, 1);
    lemma_mul_is_commutative(ih, iw);
    assert(sy * iw <= (ih - 1) * iw);
    assert(sy * iw + sx < iw * ih);
}

/// A one-by-one target always samples the top-left corner of the grid: the
/// single cell's source position is `(0, 0)`.
pub proof fn lemma_unit_target_samples_origin(img: ImageModel)
    requires
        img.wf(),
    ensures
        src_col(0, img.width, 1) == 0,
        src_row(0, img.height, 1) == 0,
        src_index(0, 0, img, 1, 1) == 0,
{
}

/// Computes the solid color of every cell of a `target_w` by `target_h`
/// rectangle from the grid, by nearest-neighbor resampling. Cells come back
/// in row-major target order (`y` outer, top-down), each already carrying its
/// flipped display row. A degenerate target (either dimension zero) paints
/// nothing.
pub fn render_cells(img: &Image, target_w: u16, target_h: u16) -> (cells: Vec<CellColor>)
    requires
        img.wf(),
    ensures
        cells@.len() == target_w as int * target_h as int,
        forall|i: int|
            0 <= i < cells@.len() ==> cells@[i] == cell_at(
                img@,
                target_w as int,
                target_h as int,
                i % (target_w as int),
                i / (target_w as int),
            ),
{
    let tw = target_w as usize;
    let th = target_h as usize;
    let mut cells: Vec<CellColor> = Vec::new();
    if tw == 0 {
        return cells;
    }
    let mut y: usize = 0;
    while y < th
        invariant
            img.wf(),
            0 < tw <= 0xffff,
            th <= 0xffff,
            tw as int == target_w as int,
            th as int == target_h as int,
            0 <= y <= th,
            cells@.len() == y * tw,
            forall|i: int|
                0 <= i < cells@.len() ==> cells@[i] == cell_at(
                    img@,
                    tw as int,
                    th as int,
                    i % (tw as int),
                    i / (tw as int),
                ),
        decreases th - y,
    {
        let mut x: usize = 0;
        while x < tw
            invariant
                img.wf(),
                0 < tw <= 0xffff,
                th <= 0xffff,
                tw as int == target_w as int,
                th as int == target_h as int,
                0 <= y < th,
                0 <= x <= tw,
                cells@.len() == y * tw + x,
                forall|i: int|
                    0 <= i < cells@.len() ==> cells@[i] == cell_at(
                        img@,
                        tw as int,
                        th as int,
                        i % (tw as int),
                        i / (tw as int),
                    ),
            decreases tw - x,
        {
            proof {
                lemma_src_index_in_bounds(x as int, y as int, img@, tw as int, th as int);
                lemma_mul_upper_bounds(x as int, y as int, img@, tw as int, th as int);
            }
            let sx: u64 = (x as u64) * (img.width as u64) / (tw as u64);
            let sy: u64 = (y as u64) * (img.height as u64) / (th as u64);
            let idx: u64 = sy * (img.width as u64) + sx;
            let sample_count: usize = img.pixels.len();
            proof {
                assert(sx as int == src_col(x as int, img@.width, tw as int));
                assert(sy as int == src_row(y as int, img@.height, th as int));
                assert(idx as int == src_index(x as int, y as int, img@, tw as int, th as int));
                assert((idx as int) < (sample_count as int));
            }
            let p = img.pixels[idx as usize];
            let cell = CellColor {
                x: x as u16,
                y: (th - 1 - y) as u16,
                red: p.0,
                green: p.1,
                blue: p.2,
            };
            cells.push(cell);
            proof {
                let twi = tw as int;
                let n = (y * tw + x) as int;
                assert(n % twi == x as int && n / twi == y as int) by {
                    vstd::arithmetic::div_mod::lemma_fundamental_div_mod_converse(
                        n,
                        twi,
                        y as int,
                        x as int,
                    );
                }
                assert(cells@[n] == cell_at(img@, twi, th as int, x as int, y as int));
            }
            x = x + 1;
        }
        proof {
            lemma_mul_is_distributive_sub_other_way(tw as int, y as int + 1, 1);
        }
        y = y + 1;
    }
    proof {
        lemma_mul_is_commutative(th as int, tw as int);
    }
    cells
}

/// The intermediate products of the resampling arithmetic stay far below the
/// machine limits: a factor is a cell coordinate (at most `u16::MAX`) or a
/// grid dimension (at most `u32::MAX`).
proof fn lemma_mul_upper_bounds(x: int, y: int, img: ImageModel, target_w: int, target_h: int)
    requires
        img.wf(),
        img.width <= u32::MAX,
        img.height <= u32::MAX,
        0 <= x < target_w,
        0 <= y < target_h,
        target_w <= u16::MAX,
        target_h <= u16::MAX,
    ensures
        x * img.width <= u16::MAX * (u32::MAX as int),
        y * img.height <= u16::MAX * (u32::MAX as int),
        img.width * img.height <= u32::MAX * (u32::MAX as int),
{
    vstd::arithmetic::mul::lemma_mul_upper_bound(x, u16::MAX as int, img.width, u32::MAX as int);
    vstd::arithmetic::mul::lemma_mul_upper_bound(y, u16::MAX as int, img.height, u32::MAX as int);
    vstd::arithmetic::mul::lemma_mul_upper_bound(
        img.width,
        u32::MAX as int,
        img.height,
        u32::MAX as int,
    );
}

} // verus!
