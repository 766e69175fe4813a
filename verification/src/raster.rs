//! The raster pipeline: one colour per pixel of a fixed grid, computed in parallel
//! and laid out as a byte buffer of three bytes per pixel, row by row.
//!
//! What colour a pixel gets is the caller's `shade`, a function of the pixel's
//! column and row and of the iteration cap of the frame. The pipeline decides
//! which pixel goes where.

use vstd::prelude::*;
use rayon::iter::{IntoParallelIterator, ParallelIterator};

verus! {

/// Width of the pixel grid.
pub const WIDTH: u32 = 1200;

/// Height of the pixel grid.
pub const HEIGHT: u32 = 800;

/// Number of pixels of the grid.
pub const PIXEL_COUNT: u32 = WIDTH * HEIGHT;

/// Number of bytes of a frame: three per pixel.
pub const FRAME_BYTES: usize = 3 * (PIXEL_COUNT as usize);

/// The column of the pixel with the linear index `index`.
pub open spec fn column_of(index: u32) -> u32 {
    index % WIDTH
}

/// The row of the pixel with the linear index `index`.
pub open spec fn row_of(index: u32) -> u32 {
    index / WIDTH
}

/// `rgb` is a colour that `shade` gives the pixel `index` under the cap
/// `iterations`.
pub open spec fn shades<F: Fn(u32, u32, usize) -> [u8; 3]>(
    shade: F,
    iterations: usize,
    index: u32,
    rgb: [u8; 3],
) -> bool {
    call_ensures(shade, (column_of(index), row_of(index), iterations), rgb)
}

/// The three bytes of `frame` at the place of the pixel `index` are a colour that
/// `shade` gives that pixel under the cap `iterations`.
pub open spec fn shows_pixel<F: Fn(u32, u32, usize) -> [u8; 3]>(
    frame: Seq<u8>,
    shade: F,
    iterations: usize,
    index: u32,
) -> bool {
    exists|rgb: [u8; 3]|
        {
            &&& #[trigger] shades(shade, iterations, index, rgb)
            &&& frame[3 * index] == rgb[0]
            &&& frame[3 * index + 1] == rgb[1]
            &&& frame[3 * index + 2] == rgb[2]
        }
}

/// `frame` is a frame of `shade` under the cap `iterations`: three bytes for every
/// pixel of the grid, in the order of the linear pixel index, each pixel shown as
/// `shade` colours it.
pub open spec fn is_frame<F: Fn(u32, u32, usize) -> [u8; 3]>(
    frame: Seq<u8>,
    shade: F,
    iterations: usize,
) -> bool {
    &&& frame.len() == FRAME_BYTES
    &&& forall|index: u32|
        index < PIXEL_COUNT ==> #[trigger] shows_pixel(frame, shade, iterations, index)
}

/// `shade` may be asked about every pixel of the grid under the cap `iterations`.
pub open spec fn covers_grid<F: Fn(u32, u32, usize) -> [u8; 3]>(shade: F, iterations: usize) -> bool {
    forall|column: u32, row: u32|
        column < WIDTH && row < HEIGHT ==> call_requires(shade, (column, row, iterations))
}

/// `shade` gives one colour for each column, row and cap.
pub open spec fn is_pure<F: Fn(u32, u32, usize) -> [u8; 3]>(shade: F) -> bool {
    forall|column: u32, row: u32, iterations: usize, a: [u8; 3], b: [u8; 3]|
        call_ensures(shade, (column, row, iterations), a) && call_ensures(
            shade,
            (column, row, iterations),
            b,
        ) ==> a == b
}

/// Computes the column of a pixel from its linear index.
pub fn pixel_column(index: u32) -> (column: u32)
    ensures
        column == column_of(index),
        column < WIDTH,
{
    index % WIDTH
}

/// Computes the row of a pixel from its linear index.
pub fn pixel_row(index: u32) -> (row: u32)
    ensures
        row == row_of(index),
        row * WIDTH + column_of(index) == index,
        index < PIXEL_COUNT ==> row < HEIGHT,
{
    index / WIDTH
}

/// Distinct pixels lie at distinct places: a column and a row belong to one linear
/// index.
pub proof fn lemma_pixel_places_are_distinct(first: u32, second: u32)
    requires
        column_of(first) == column_of(second),
        row_of(first) == row_of(second),
    ensures
        first == second,
{
}

/// Computes the colour of the pixel with the linear index `index` under the cap
/// `iterations`.
pub fn shade_pixel<F: Fn(u32, u32, usize) -> [u8; 3]>(index: u32, iterations: usize, shade: &F) -> (rgb: [u8; 3])
    requires
        call_requires(*shade, (column_of(index), row_of(index), iterations)),
    ensures
        shades(*shade, iterations, index, rgb),
{
    shade(pixel_column(index), pixel_row(index), iterations)
}

/// Runs `shade_pixel` for the indices `0..count` on rayon's worker pool, through
/// `into_par_iter`, `map` and `collect` on a range. The contract claims what
/// rayon documents of collecting an indexed parallel iterator into a vector: the
/// result has one item per index, in the order of the indices, and the item at an
/// index is what the mapped function returned for that index.
#[verifier::external_body]
fn par_shade_pixels<F: Fn(u32, u32, usize) -> [u8; 3] + Sync + Send>(
    count: u32,
    iterations: usize,
    shade: &F,
) -> (pixels: Vec<[u8; 3]>)
    requires
        forall|index: u32|
            index < count ==> call_requires(*shade, (column_of(index), row_of(index), iterations)),
    ensures
        pixels@.len() == count,
        forall|index: u32|
            index < count ==> shades(*shade, iterations, index, #[trigger] pixels@[index as int]),
{
    (0..count).into_par_iter().map(|index| shade_pixel(index, iterations, shade)).collect()
}

/// Computes a frame under the cap `iterations`: the colour of every pixel of the
/// grid, three bytes each, in the order of the linear pixel index. The pixels are
/// shaded in parallel; which worker shades which pixel has no part in the result.
pub fn generate_frame<F: Fn(u32, u32, usize) -> [u8; 3] + Sync + Send>(iterations: usize, shade: &F) -> (frame: Vec<u8>)
    requires
        covers_grid(*shade, iterations),
    ensures
        is_frame(frame@, *shade, iterations),
{
    assert forall|index: u32| index < PIXEL_COUNT implies #[trigger] call_requires(
        *shade,
        (column_of(index), row_of(index), iterations),
    ) by {
        assert(column_of(index) < WIDTH && row_of(index) < HEIGHT);
    }
    let pixels = par_shade_pixels(PIXEL_COUNT, iterations, shade);
    let mut frame: Vec<u8> = Vec::with_capacity(FRAME_BYTES);
    let mut index: usize = 0;
    while index < pixels.len()
        invariant
            pixels@.len() == PIXEL_COUNT,
            index <= pixels@.len(),
            frame@.len() == 3 * index,
            forall|i: int|
                #![trigger pixels@[i]]
                0 <= i < index ==> {
                    &&& frame@[3 * i] == pixels@[i][0]
                    &&& frame@[3 * i + 1] == pixels@[i][1]
                    &&& frame@[3 * i + 2] == pixels@[i][2]
                },
        decreases pixels@.len() - index,
    {
        let rgb = pixels[index];
        frame.push(rgb[0]);
        frame.push(rgb[1]);
        frame.push(rgb[2]);
        index = index + 1;
    }
    assert forall|index: u32| index < PIXEL_COUNT implies #[trigger] shows_pixel(
        frame@,
        *shade,
        iterations,
        index,
    ) by {
        assert(shades(*shade, iterations, index, pixels@[index as int]));
    }
    frame
}

/// Two frames computed with the same pure `shade` under the same cap are equal
/// byte for byte.
pub proof fn lemma_frame_is_determined<F: Fn(u32, u32, usize) -> [u8; 3]>(
    shade: F,
    iterations: usize,
    first: Seq<u8>,
    second: Seq<u8>,
)
    requires
        is_pure(shade),
        is_frame(first, shade, iterations),
        is_frame(second, shade, iterations),
    ensures
        first == second,
{
    assert forall|at: int| 0 <= at < first.len() implies first[at] == second[at] by {
        let index = (at / 3) as u32;
        assert(shows_pixel(first, shade, iterations, index));
        assert(shows_pixel(second, shade, iterations, index));
        assert(at == 3 * index || at == 3 * index + 1 || at == 3 * index + 2);
    }
    assert(first =~= second);
}

} // verus!
