//! From decoded image bytes to the grid of character cells.
//!
//! The bytes are cut into rows of pixels, a black row is added where the
//! number of rows is odd, and every two rows become one row of cells.

use crate::photon::{image_bytes, image_width};
use crate::pixel::{quantize, AnsiPixel, AnsiPixelPair};
use crate::rgb::{pack, pack_rgb};
use photon_rs::PhotonImage;
use vstd::prelude::*;

verus! {

/// Why a byte buffer is not an image that can be drawn.
#[derive(Debug, Clone, Copy, PartialEq, Eq, Structural)]
pub enum GridError {
    /// The bytes do not fill a whole number of pixels, or the pixels do not
    /// fill a whole number of rows.
    InvalidDimensions,
    /// The image has no rows or no columns.
    EmptyImage,
}

impl GridError {
    /// The wording of the error.
    pub open spec fn text(self) -> Seq<char> {
        match self {
            GridError::InvalidDimensions => "invalid grid dimensions"@,
            GridError::EmptyImage => "empty image"@,
        }
    }

    /// Describes the error in words.
    pub fn message(&self) -> (text: &'static str)
        ensures
            text@ == self.text(),
    {
        match self {
            GridError::InvalidDimensions => "invalid grid dimensions",
            GridError::EmptyImage => "empty image",
        }
    }
}

/// The rows of a grid held in nested vectors.
pub open spec fn rows<T>(grid: Vec<Vec<T>>) -> Seq<Seq<T>> {
    Seq::new(grid@.len(), |r: int| grid@[r]@)
}

/// Every row is as long as the first.
pub open spec fn rectangular<T>(grid: Seq<Seq<T>>) -> bool {
    forall|r: int| 0 <= r < grid.len() ==> (#[trigger] grid[r]).len() == grid[0].len()
}

/// What is wrong with a buffer of `bytes` for an image `width` pixels wide,
/// if anything is. An image without pixels counts as empty before its
/// dimensions are looked at.
pub open spec fn grid_error(bytes: Seq<u8>, width: u32) -> Option<GridError> {
    if width == 0 || bytes.len() == 0 {
        Some(GridError::EmptyImage)
    } else if bytes.len() % 4 != 0 || (bytes.len() / 4) % (width as nat) != 0 {
        Some(GridError::InvalidDimensions)
    } else {
        None
    }
}

/// The number of pixel rows in a buffer of `bytes`.
pub open spec fn source_rows(bytes: Seq<u8>, width: u32) -> int {
    (bytes.len() / 4) as int / width as int
}

/// Whether a black row is added below the pixel rows of a buffer: their
/// number is odd.
pub open spec fn is_padded(bytes: Seq<u8>, width: u32) -> bool {
    source_rows(bytes, width) % 2 == 1
}

/// The color of the pixel at position `k` of a buffer of four bytes per
/// pixel; the fourth byte, alpha, is left out.
pub open spec fn pixel_at(bytes: Seq<u8>, k: int) -> u32 {
    pack(bytes[4 * k] as int, bytes[4 * k + 1] as int, bytes[4 * k + 2] as int) as u32
}

/// The pixel rows of a buffer, made even in number by one black row at the
/// end where needed.
pub open spec fn bitmap_of(bytes: Seq<u8>, width: u32) -> Seq<Seq<u32>> {
    let height = source_rows(bytes, width);
    Seq::new(
        (height + height % 2) as nat,
        |r: int|
            Seq::new(
                width as nat,
                |c: int|
                    if r < height {
                        pixel_at(bytes, r * width + c)
                    } else {
                        0u32
                    },
            ),
    )
}

/// The cells of a pixel grid with an even number of rows: cell `c` of row
/// `r` has the pixel of row `2r` on top and that of row `2r + 1` below,
/// each matched against the color tables. A row has as many cells as the
/// first pixel row has pixels.
pub open spec fn halfblock_of(bitmap: Seq<Seq<u32>>) -> Seq<Seq<AnsiPixelPair>> {
    Seq::new(
        bitmap.len() / 2,
        |r: int|
            Seq::new(
                bitmap[0].len(),
                |c: int|
                    AnsiPixelPair {
                        top: quantize(bitmap[2 * r][c]),
                        bottom: quantize(bitmap[2 * r + 1][c]),
                    },
            ),
    )
}

/// Pairs up the rows of a pixel grid: rows `2r` and `2r + 1` become row `r`
/// of cells, every pixel matched against the color tables.
pub fn halfblock_bitmap(bitmap: &Vec<Vec<u32>>) -> (canvas: Vec<Vec<AnsiPixelPair>>)
    requires
        rectangular(rows(*bitmap)),
        bitmap@.len() % 2 == 0,
    ensures
        rows(canvas) == halfblock_of(rows(*bitmap)),
{
    let mut canvas: Vec<Vec<AnsiPixelPair>> = Vec::new();
    let height = bitmap.len() / 2;
    let mut r: usize = 0;
    while r < height
        invariant
            rectangular(rows(*bitmap)),
            bitmap@.len() % 2 == 0,
            bitmap@.len() <= usize::MAX,
            height == bitmap@.len() / 2,
            0 <= r <= height,
            canvas@.len() == r,
            forall|k: int|
                0 <= k < r ==> (#[trigger] canvas@[k])@ == halfblock_of(rows(*bitmap))[k],
        decreases height - r,
    {
        let top_row = &bitmap[2 * r];
        let bottom_row = &bitmap[2 * r + 1];
        let width = bitmap[0].len();
        assert(rows(*bitmap)[2 * r].len() == rows(*bitmap)[0].len());
        assert(rows(*bitmap)[2 * r + 1].len() == rows(*bitmap)[0].len());
        let mut row: Vec<AnsiPixelPair> = Vec::new();
        let mut c: usize = 0;
        while c < width
            invariant
                0 <= r < height,
                height == bitmap@.len() / 2,
                width == bitmap@[0]@.len(),
                top_row@ == bitmap@[2 * r]@,
                bottom_row@ == bitmap@[2 * r + 1]@,
                top_row@.len() == width,
                bottom_row@.len() == width,
                0 <= c <= width,
                row@.len() == c,
                forall|k: int|
                    0 <= k < c ==> #[trigger] row@[k] == (AnsiPixelPair {
                        top: quantize(top_row@[k]),
                        bottom: quantize(bottom_row@[k]),
                    }),
            decreases width - c,
        {
            let pair = AnsiPixelPair {
                top: AnsiPixel::new(&top_row[c]),
                bottom: AnsiPixel::new(&bottom_row[c]),
            };
            row.push(pair);
            c += 1;
        }
        assert(row@ =~= halfblock_of(rows(*bitmap))[r as int]);
        canvas.push(row);
        r += 1;
    }
    assert(rows(canvas) =~= halfblock_of(rows(*bitmap)));
    canvas
}

/// An image cut into character cells.
#[derive(Debug, Clone)]
pub struct AnsiImage {
    /// The pixel rows, an even number of them.
    pub bitmap: Vec<Vec<u32>>,
    /// The cells: row `r` pairs pixel rows `2r` and `2r + 1`.
    pub halfblock: Vec<Vec<AnsiPixelPair>>,
    /// Whether the last pixel row was added to make the number even. The
    /// last row of cells then shows a row of the image above a row that
    /// the image does not have.
    pub padded: bool,
}

/// What an [`AnsiImage`] holds, as plain sequences.
#[verifier::ext_equal]
pub struct Canvas {
    /// The pixel rows.
    pub bitmap: Seq<Seq<u32>>,
    /// The rows of cells.
    pub cells: Seq<Seq<AnsiPixelPair>>,
    /// Whether the last pixel row was added.
    pub padded: bool,
}

impl Canvas {
    /// The canvas of a buffer of four bytes per pixel for an image `width`
    /// pixels wide: its pixel rows, made even in number, and their cells.
    pub open spec fn of_bytes(bytes: Seq<u8>, width: u32) -> Canvas {
        Canvas {
            bitmap: bitmap_of(bytes, width),
            cells: halfblock_of(bitmap_of(bytes, width)),
            padded: is_padded(bytes, width),
        }
    }

    /// The pixel rows form a grid that is not empty and has an even number
    /// of rows, the cells are those of the pixel rows, and a row that was
    /// added is black.
    pub open spec fn wf(self) -> bool {
        &&& self.bitmap.len() > 0
        &&& self.bitmap.len() % 2 == 0
        &&& self.bitmap[0].len() > 0
        &&& rectangular(self.bitmap)
        &&& self.cells == halfblock_of(self.bitmap)
        &&& self.padded ==> forall|c: int|
            0 <= c < self.bitmap[0].len() ==> #[trigger] self.bitmap.last()[c] == 0
    }
}

impl View for AnsiImage {
    type V = Canvas;

    open spec fn view(&self) -> Canvas {
        Canvas { bitmap: rows(self.bitmap), cells: rows(self.halfblock), padded: self.padded }
    }
}

impl AnsiImage {
    /// Cuts a buffer of four bytes per pixel (red, green, blue, alpha; row
    /// after row, `width` pixels per row) into character cells. An odd
    /// number of pixel rows is made even by a black row at the end.
    pub fn from_raw_pixels(bytes: &[u8], width: u32) -> (result: Result<AnsiImage, GridError>)
        ensures
            match result {
                Ok(image) => {
                    &&& grid_error(bytes@, width) is None
                    &&& image@ == Canvas::of_bytes(bytes@, width)
                    &&& image@.wf()
                    &&& image.halfblock@.len() == (source_rows(bytes@, width) + 1) / 2
                },
                Err(error) => grid_error(bytes@, width) == Some(error),
            },
    {
        if width == 0 || bytes.len() == 0 {
            return Err(GridError::EmptyImage);
        }
        let w: usize = width as usize;
        if bytes.len() % 4 != 0 {
            return Err(GridError::InvalidDimensions);
        }
        let count = bytes.len() / 4;
        if count % w != 0 {
            return Err(GridError::InvalidDimensions);
        }
        let height = count / w;
        assert(height * w == count && height > 0) by (nonlinear_arith)
            requires
                height == count / w,
                count % w == 0,
                count > 0,
                w > 0,
        ;
        let ghost wanted = bitmap_of(bytes@, width);
        let mut bitmap: Vec<Vec<u32>> = Vec::new();
        let mut r: usize = 0;
        while r < height
            invariant
                w == width,
                w > 0,
                bytes@.len() <= usize::MAX,
                count == bytes@.len() / 4,
                bytes@.len() % 4 == 0,
                height * w == count,
                height == source_rows(bytes@, width),
                wanted == bitmap_of(bytes@, width),
                0 <= r <= height,
                bitmap@.len() == r,
                forall|k: int| 0 <= k < r ==> (#[trigger] bitmap@[k])@ == wanted[k],
            decreases height - r,
        {
            assert(r * w + w <= count) by (nonlinear_arith)
                requires
                    r < height,
                    height * w == count,
            ;
            let start = r * w;
            let mut row: Vec<u32> = Vec::new();
            let mut c: usize = 0;
            while c < w
                invariant
                    bytes@.len() <= usize::MAX,
                    count == bytes@.len() / 4,
                    bytes@.len() % 4 == 0,
                    start == r * w,
                    start + w <= count,
                    0 <= c <= w,
                    row@.len() == c,
                    forall|k: int| 0 <= k < c ==> #[trigger] row@[k] == pixel_at(bytes@, start + k),
                decreases w - c,
            {
                let k = (start + c) * 4;
                row.push(pack_rgb(bytes[k], bytes[k + 1], bytes[k + 2]));
                c += 1;
            }
            assert(row@ =~= wanted[r as int]);
            bitmap.push(row);
            r += 1;
        }
        let padded = height % 2 != 0;
        if padded {
            let row: Vec<u32> = vec![0; w];
            assert(row@ =~= wanted[height as int]);
            bitmap.push(row);
        }
        assert(rows(bitmap) =~= wanted);
        let halfblock = halfblock_bitmap(&bitmap);
        assert(rows(halfblock).len() == halfblock@.len());
        let image = AnsiImage { bitmap, halfblock, padded };
        assert(image@ =~~= Canvas::of_bytes(bytes@, width));
        assert(image@.wf());
        Ok(image)
    }

    /// Cuts a decoded image into character cells: reads its bytes and its
    /// width and hands them to [`AnsiImage::from_raw_pixels`].
    pub fn new(image: PhotonImage) -> (result: Result<AnsiImage, GridError>)
        ensures
            match result {
                Ok(cut) => {
                    &&& grid_error(image_bytes(image), image_width(image)) is None
                    &&& cut@ == Canvas::of_bytes(image_bytes(image), image_width(image))
                    &&& cut@.wf()
                },
                Err(error) => grid_error(image_bytes(image), image_width(image)) == Some(error),
            },
    {
        let bytes = image.get_raw_pixels();
        let width = image.get_width();
        AnsiImage::from_raw_pixels(bytes.as_slice(), width)
    }
}

/// A buffer of `n` pixel rows gives `n / 2` rows of cells, rounded up, and
/// the same number of columns as it has itself. Where `n` is odd, the last
/// row of cells has a pixel of the image on top and black below.
pub proof fn lemma_cell_grid_shape(bytes: Seq<u8>, width: u32)
    requires
        grid_error(bytes, width) is None,
    ensures
        halfblock_of(bitmap_of(bytes, width)).len() == (source_rows(bytes, width) + 1) / 2,
        forall|r: int|
            0 <= r < halfblock_of(bitmap_of(bytes, width)).len() ==> (#[trigger] halfblock_of(
                bitmap_of(bytes, width),
            )[r]).len() == width,
        is_padded(bytes, width) ==> forall|c: int|
            0 <= c < width ==> (#[trigger] halfblock_of(bitmap_of(bytes, width)).last()[c])
                == (AnsiPixelPair {
                top: quantize(pixel_at(bytes, (source_rows(bytes, width) - 1) * width + c)),
                bottom: quantize(0),
            }),
{
    let height = source_rows(bytes, width);
    assert(height >= 1) by (nonlinear_arith)
        requires
            height == (bytes.len() / 4) as int / width as int,
            (bytes.len() / 4) % (width as nat) == 0,
            bytes.len() / 4 > 0,
            width > 0,
    ;
}

/// The canvas of a buffer that is an image is well formed.
pub proof fn lemma_canvas_of_bytes_wf(bytes: Seq<u8>, width: u32)
    requires
        grid_error(bytes, width) is None,
    ensures
        Canvas::of_bytes(bytes, width).wf(),
{
    let height = source_rows(bytes, width);
    assert(height >= 1) by (nonlinear_arith)
        requires
            height == (bytes.len() / 4) as int / width as int,
            (bytes.len() / 4) % (width as nat) == 0,
            bytes.len() / 4 > 0,
            width > 0,
    ;
}

} // verus!
