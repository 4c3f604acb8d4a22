//! The order in which an image's pixels are rendered and written.

use vstd::prelude::*;

verus! {

/// The pixel at position `i` of the scan, as (row, column): rows from the
/// highest to the lowest, each row from column 0 upwards.
pub open spec fn pixel_at(height: usize, width: usize, i: int) -> (usize, usize) {
    ((height - 1 - i / (width as int)) as usize, (i % (width as int)) as usize)
}

/// The pixel at position `i` of the scan of a `height` by `width` image.
pub fn pixel_iter(height: usize, width: usize, i: usize) -> (p: (usize, usize))
    requires
        i < height * width,
    ensures
        p == pixel_at(height, width, i as int),
        p.0 < height,
        p.1 < width,
{
    assert(width > 0 && i / width < height) by (nonlinear_arith)
        requires
            i < height * width,
    ;
    (height - 1 - i / width, i % width)
}

/// All pixels of a `height` by `width` image in scan order.
pub fn pixel_list(height: usize, width: usize) -> (list: Vec<(usize, usize)>)
    requires
        height * width <= usize::MAX,
    ensures
        list@.len() == height * width,
        forall|i: int|
            0 <= i < list@.len() ==> list@[i] == pixel_at(height, width, i),
{
    let mut list: Vec<(usize, usize)> = Vec::new();
    let mut row: usize = 0;
    while row < height
        invariant
            row <= height,
            list@.len() == row * width,
            forall|i: int|
                0 <= i < list@.len() ==> list@[i] == pixel_at(height, width, i),
        decreases height - row,
    {
        let y: usize = height - 1 - row;
        let mut x: usize = 0;
        while x < width
            invariant
                row < height,
                y == height - 1 - row,
                x <= width,
                list@.len() == row * width + x,
                forall|i: int|
                    0 <= i < list@.len() ==> list@[i] == pixel_at(height, width, i),
            decreases width - x,
        {
            proof {
                lemma_position(row as int, x as int, width as int);
            }
            list.push((y, x));
            x += 1;
        }
        assert(row * width + width == (row + 1) * width) by (nonlinear_arith);
        row += 1;
    }
    list
}

/// Every position of the scan names a pixel inside the image.
pub proof fn lemma_in_image(height: usize, width: usize, i: int)
    requires
        0 <= i < height * width,
    ensures
        pixel_at(height, width, i).0 == height - 1 - i / (width as int),
        pixel_at(height, width, i).1 == i % (width as int),
        pixel_at(height, width, i).0 < height,
        pixel_at(height, width, i).1 < width,
{
    assert(width > 0 && 0 <= i / (width as int) < height && 0 <= i % (width as int) < width)
        by (nonlinear_arith)
        requires
            0 <= i < height * width,
    ;
}

/// Two positions of the scan that name the same pixel are the same position.
pub proof fn lemma_scan_is_one_to_one(height: usize, width: usize, i: int, j: int)
    requires
        0 <= i < height * width,
        0 <= j < height * width,
        pixel_at(height, width, i) == pixel_at(height, width, j),
    ensures
        i == j,
{
    lemma_in_image(height, width, i);
    lemma_in_image(height, width, j);
    vstd::arithmetic::div_mod::lemma_fundamental_div_mod(i, width as int);
    vstd::arithmetic::div_mod::lemma_fundamental_div_mod(j, width as int);
}

/// Position `row * width + x` of the scan lies in row `row` at column `x`.
proof fn lemma_position(row: int, x: int, width: int)
    requires
        0 <= row,
        0 <= x < width,
    ensures
        (row * width + x) / width == row,
        (row * width + x) % width == x,
{
    vstd::arithmetic::div_mod::lemma_fundamental_div_mod_converse(row * width + x, width, row, x);
}

} // verus!
