//! Shading every pixel of an image, the pixels handed out to worker threads.

use rayon::iter::IntoParallelRefIterator;
use rayon::iter::ParallelIterator;
use vstd::prelude::*;
use crate::pixels::lemma_in_image;
use crate::pixels::pixel_at;
use crate::pixels::pixel_list;
use crate::ppm::encode;
use crate::ppm::image_bytes;

verus! {

/// Applies `shade` to every pixel on rayon's thread pool and gathers what it
/// returns.
///
/// Trusted: `par_iter().copied().map(f).collect()` from rayon. The contract
/// claims that the collected vector has one item for each pixel, and that the
/// item at each position is what a call of `shade` on the pixel at that
/// position returned. It claims nothing of the order or the threads in which
/// the calls are made.
#[verifier::external_body]
fn par_map<F>(pixels: &Vec<(usize, usize)>, shade: &F) -> (colors: Vec<(u8, u8, u8)>) where
    F: Fn((usize, usize)) -> (u8, u8, u8) + Sync + Send,

    requires
        forall|i: int| 0 <= i < pixels@.len() ==> shade.requires((#[trigger] pixels@[i],)),
    ensures
        colors@.len() == pixels@.len(),
        forall|i: int|
            0 <= i < colors@.len() ==> shade.ensures((pixels@[i],), #[trigger] colors@[i]),
{
    pixels.par_iter().copied().map(shade).collect()
}

/// `colors` holds, for each position of the scan of a `height` by `width`
/// image, what `shade` returned for the pixel at that position.
pub open spec fn shaded<F: Fn((usize, usize)) -> (u8, u8, u8)>(
    height: usize,
    width: usize,
    shade: &F,
    colors: Seq<(u8, u8, u8)>,
) -> bool {
    &&& colors.len() == height * width
    &&& forall|i: int|
        0 <= i < colors.len() ==> shade.ensures((pixel_at(height, width, i),), #[trigger] colors[i])
}

/// The colour of every pixel of a `height` by `width` image, in scan order:
/// rows from the highest to the lowest, each from column 0 upwards. The
/// pixels are independent of one another: `shade` is called once for each, as
/// (row, column), on any thread and in any order.
pub fn shade_pixels<F>(height: usize, width: usize, shade: &F) -> (colors: Vec<(u8, u8, u8)>) where
    F: Fn((usize, usize)) -> (u8, u8, u8) + Sync + Send,

    requires
        height * width <= usize::MAX,
        forall|y: usize, x: usize| y < height && x < width ==> shade.requires(((y, x),)),
    ensures
        shaded(height, width, shade, colors@),
{
    let pixels = pixel_list(height, width);
    assert forall|i: int| 0 <= i < pixels@.len() implies shade.requires((#[trigger] pixels@[i],)) by {
        lemma_in_image(height, width, i);
    }
    par_map(&pixels, shade)
}

/// The finished image of `height` rows and `width` columns as text: the
/// header, then the line of each pixel's colour in scan order.
pub fn render_image<F>(height: usize, width: usize, shade: &F) -> (out: Vec<u8>) where
    F: Fn((usize, usize)) -> (u8, u8, u8) + Sync + Send,

    requires
        height * width <= usize::MAX,
        forall|y: usize, x: usize| y < height && x < width ==> shade.requires(((y, x),)),
    ensures
        exists|colors: Seq<(u8, u8, u8)>|
            shaded(height, width, shade, colors) && out@ == image_bytes(
                width as nat,
                height as nat,
                colors,
            ),
{
    let colors = shade_pixels(height, width, shade);
    encode(width, height, &colors)
}

/// Where `shade` gives one colour to one pixel, an image has one shading:
/// shading it again gives the same colours.
pub proof fn lemma_shading_is_reproducible<F: Fn((usize, usize)) -> (u8, u8, u8)>(
    height: usize,
    width: usize,
    shade: &F,
    first: Seq<(u8, u8, u8)>,
    second: Seq<(u8, u8, u8)>,
)
    requires
        forall|p: (usize, usize), a: (u8, u8, u8), b: (u8, u8, u8)|
            shade.ensures((p,), a) && shade.ensures((p,), b) ==> a == b,
        shaded(height, width, shade, first),
        shaded(height, width, shade, second),
    ensures
        first == second,
{
}

} // verus!
