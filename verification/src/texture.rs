//! Texture images: decoded pixels, laid out bottom row first as the GPU
//! backend expects them.

use vstd::prelude::*;
use crate::error::ResourceCreationError;

verus! {

/// `image::ImageError`, the error of the `image` crate. It is carried from
/// the decoder to the place that turns it into an error of this crate, and
/// never looked into.
#[verifier::external_type_specification]
#[verifier::external_body]
pub struct ExImageError(image::ImageError);

/// What the `image` crate reads out of `bytes` taken as a PNG file and
/// converted to 8-bit RGBA: the pixel bytes with the top row first, the
/// width and the height; `None` where it rejects the bytes.
pub uninterp spec fn png_rgba8(bytes: Seq<u8>) -> Option<(Seq<u8>, u32, u32)>;

/// `data` cut into pieces of `stride` bytes (the last one may be shorter),
/// the pieces joined again in reverse order.
pub open spec fn rows_reversed(data: Seq<u8>, stride: int) -> Seq<u8>
    decreases data.len(),
{
    if stride <= 0 || data.len() <= stride {
        data
    } else {
        rows_reversed(data.skip(stride), stride) + data.take(stride)
    }
}

/// The image of `rows` rows of `stride` bytes each with its rows in the
/// opposite vertical order.
pub open spec fn flipped(data: Seq<u8>, stride: int, rows: int) -> Seq<u8> {
    Seq::new(data.len(), |i: int| data[(rows - 1 - i / stride) * stride + i % stride])
}

/// Calls `image::load` on an in-memory reader with the PNG format, then
/// `DynamicImage::to_rgba8`, `ImageBuffer::dimensions` and
/// `ImageBuffer::into_raw`. The contract only gives the outcome its name,
/// `png_rgba8`: nothing is claimed about which bytes decode or to what.
#[verifier::external_body]
fn decode_png(bytes: &[u8]) -> (r: Result<(Vec<u8>, u32, u32), image::ImageError>)
    ensures
        match r {
            Ok(raster) => png_rgba8(bytes@) == Some((raster.0@, raster.1, raster.2)),
            Err(_) => png_rgba8(bytes@) is None,
        },
{
    let image = image::load(std::io::Cursor::new(bytes), image::ImageFormat::Png)?.to_rgba8();
    let (width, height) = image.dimensions();
    Ok((image.into_raw(), width, height))
}

/// Calls `glium::texture::RawImage2d::from_raw_rgba_reversed` and takes the
/// pixel data out of the result. That function cuts the data into chunks of
/// four times the width and collects them last chunk first; it panics on a
/// chunk size of zero, which the precondition rules out.
#[verifier::external_body]
fn reverse_rows(data: &Vec<u8>, width: u32, height: u32) -> (out: Vec<u8>)
    requires
        width > 0,
        4 * width <= usize::MAX,
    ensures
        out@ == rows_reversed(data@, 4 * width),
{
    glium::texture::RawImage2d::from_raw_rgba_reversed(data.as_slice(), (width, height))
        .data
        .into_owned()
}

/// What a texture image is: its size in pixels and its bytes, four per
/// pixel, rows from the bottom of the picture to the top.
pub struct Raster {
    pub width: nat,
    pub height: nat,
    pub data: Seq<u8>,
}

impl Raster {
    /// The four bytes of the pixel in column `x` of row `y`, row 0 being the
    /// bottom one.
    pub open spec fn pixel(self, x: int, y: int) -> Seq<u8> {
        self.data.subrange(4 * (y * self.width + x), 4 * (y * self.width + x) + 4)
    }
}

/// The outcome of building a texture image from rows given top row first.
pub open spec fn spec_from_top_down(data: Seq<u8>, width: u32, height: u32) -> Result<
    Raster,
    ResourceCreationError,
> {
    if width == 0 || height == 0 {
        Err(ResourceCreationError::EmptyImage)
    } else if data.len() != 4 * width * height {
        Err(ResourceCreationError::DimensionMismatch)
    } else {
        Ok(
            Raster {
                width: width as nat,
                height: height as nat,
                data: flipped(data, 4 * width, height as int),
            },
        )
    }
}

/// The outcome of building a texture image from what a PNG decoder gave.
pub open spec fn spec_from_decoded(decoded: Option<(Seq<u8>, u32, u32)>) -> Result<
    Raster,
    ResourceCreationError,
> {
    match decoded {
        None => Err(ResourceCreationError::ImageDecode),
        Some((data, width, height)) => spec_from_top_down(data, width, height),
    }
}

/// Index arithmetic of a row-major grid: the cell `(row, col)` of a grid
/// with `stride` columns sits at `row * stride + col`, and no other cell
/// does.
pub proof fn lemma_grid_index(row: int, col: int, stride: int)
    requires
        0 <= col < stride,
    ensures
        (row * stride + col) / stride == row,
        (row * stride + col) % stride == col,
{
    vstd::arithmetic::div_mod::lemma_fundamental_div_mod_converse(
        row * stride + col,
        stride,
        row,
        col,
    );
}

/// On data that is exactly `rows` rows of `stride` bytes, joining the rows
/// in reverse order is the vertical flip.
pub proof fn lemma_rows_reversed_is_flip(data: Seq<u8>, stride: int, rows: int)
    requires
        stride > 0,
        rows >= 0,
        data.len() == stride * rows,
    ensures
        rows_reversed(data, stride) == flipped(data, stride, rows),
    decreases rows,
{
    let out = rows_reversed(data, stride);
    let want = flipped(data, stride, rows);
    if rows <= 1 {
        assert(data.len() <= stride) by (nonlinear_arith)
            requires
                data.len() == stride * rows,
                rows <= 1,
                stride > 0,
        ;
        assert forall|i: int| 0 <= i < data.len() implies out[i] == want[i] by {
            assert(rows == 1) by (nonlinear_arith)
                requires
                    data.len() == stride * rows,
                    data.len() > 0,
                    rows <= 1,
                    rows >= 0,
            ;
            lemma_grid_index(0, i, stride);
        }
        assert(out =~= want);
    } else {
        let rest = data.skip(stride);
        assert(stride * rows == stride * (rows - 1) + stride) by (nonlinear_arith);
        assert(stride * (rows - 1) >= stride) by (nonlinear_arith)
            requires
                rows >= 2,
                stride > 0,
        ;
        assert(data.len() > stride);
        lemma_rows_reversed_is_flip(rest, stride, rows - 1);
        let head = flipped(rest, stride, rows - 1);
        assert(out == head + data.take(stride));
        assert(out.len() == want.len());
        assert forall|i: int| 0 <= i < out.len() implies out[i] == want[i] by {
            let r = i / stride;
            let c = i % stride;
            vstd::arithmetic::div_mod::lemma_fundamental_div_mod(i, stride);
            vstd::arithmetic::div_mod::lemma_mod_bound(i, stride);
            assert(stride * r == r * stride) by (nonlinear_arith);
            assert(0 <= r < rows) by (nonlinear_arith)
                requires
                    0 <= i < stride * rows,
                    i == stride * r + c,
                    0 <= c < stride,
                    stride > 0,
            ;
            assert((rows - 1 - r) * stride == (rows - 1) * stride - r * stride)
                by (nonlinear_arith);
            assert((rows - 1) * stride == stride * (rows - 1)) by (nonlinear_arith);
            if i < head.len() {
                assert(r < rows - 1) by (nonlinear_arith)
                    requires
                        i < stride * (rows - 1),
                        i == stride * r + c,
                        0 <= c,
                        stride > 0,
                ;
                assert((rows - 2 - r) * stride == (rows - 1 - r) * stride - stride)
                    by (nonlinear_arith);
                assert((rows - 2 - r) * stride >= 0) by (nonlinear_arith)
                    requires
                        rows - 2 - r >= 0,
                        stride > 0,
                ;
                assert(out[i] == head[i]);
                assert(head[i] == rest[(rows - 1 - 1 - r) * stride + c]);
                assert(rest[(rows - 2 - r) * stride + c] == data[(rows - 2 - r) * stride + c
                    + stride]);
            } else {
                assert(r == rows - 1) by (nonlinear_arith)
                    requires
                        i >= stride * (rows - 1),
                        i == stride * r + c,
                        0 <= c < stride,
                        r < rows,
                        stride > 0,
                ;
                assert(out[i] == data.take(stride)[i - head.len()]);
                assert(i - head.len() == c);
            }
        }
        assert(out =~= want);
    }
}

/// Flipping an image of `rows` full rows twice gives the image back.
pub proof fn lemma_flip_twice(data: Seq<u8>, stride: int, rows: int)
    requires
        stride > 0,
        rows >= 0,
        data.len() == stride * rows,
    ensures
        flipped(flipped(data, stride, rows), stride, rows) == data,
{
    let once = flipped(data, stride, rows);
    let twice = flipped(once, stride, rows);
    assert forall|i: int| 0 <= i < data.len() implies twice[i] == data[i] by {
        let r = i / stride;
        let c = i % stride;
        vstd::arithmetic::div_mod::lemma_fundamental_div_mod(i, stride);
        vstd::arithmetic::div_mod::lemma_mod_bound(i, stride);
        assert(stride * r == r * stride) by (nonlinear_arith);
        assert(0 <= r < rows) by (nonlinear_arith)
            requires
                0 <= i < stride * rows,
                i == stride * r + c,
                0 <= c < stride,
                stride > 0,
        ;
        let j = (rows - 1 - r) * stride + c;
        assert(0 <= j < stride * rows) by (nonlinear_arith)
            requires
                j == (rows - 1 - r) * stride + c,
                0 <= r < rows,
                0 <= c < stride,
        ;
        lemma_grid_index(rows - 1 - r, c, stride);
        assert(twice[i] == once[j]);
        assert(once[j] == data[(rows - 1 - (rows - 1 - r)) * stride + c]);
    }
    assert(twice =~= data);
}

/// In a texture image built from top-down rows, the pixel in column `x` of
/// row `y` (counted from the bottom) is the source pixel in column `x` of
/// row `height - 1 - y` (counted from the top).
pub proof fn lemma_pixel_of_flipped(data: Seq<u8>, width: u32, height: u32, x: int, y: int)
    requires
        data.len() == 4 * width * height,
        0 <= x < width,
        0 <= y < height,
    ensures
        spec_from_top_down(data, width, height) matches Ok(image) && image.pixel(x, y)
            == data.subrange(
            4 * ((height - 1 - y) * width + x),
            4 * ((height - 1 - y) * width + x) + 4,
        ),
{
    let stride = 4 * width;
    let rows = height as int;
    let image = spec_from_top_down(data, width, height)->Ok_0;
    let from = 4 * (y * width + x);
    let source = 4 * ((height - 1 - y) * width + x);
    assert(from == y * stride + 4 * x && source == (rows - 1 - y) * stride + 4 * x)
        by (nonlinear_arith)
        requires
            stride == 4 * width,
            rows == height,
            from == 4 * (y * width + x),
            source == 4 * ((height - 1 - y) * width + x),
    ;
    assert(0 <= from && from + 4 <= data.len() && 0 <= source && source + 4 <= data.len())
        by (nonlinear_arith)
        requires
            from == 4 * (y * width + x),
            source == 4 * ((height - 1 - y) * width + x),
            data.len() == 4 * width * height,
            0 <= x < width,
            0 <= y < height,
    ;
    let got = image.pixel(x, y);
    let want = data.subrange(source, source + 4);
    assert forall|k: int| 0 <= k < 4 implies got[k] == want[k] by {
        lemma_grid_index(y, 4 * x + k, stride);
        assert(got[k] == image.data[from + k]);
        assert(image.data[from + k] == data[(rows - 1 - (from + k) / stride) * stride + (from
            + k) % stride]);
    }
    assert(got =~= want);
}

/// An RGBA8 image ready to be handed to the GPU backend as a texture.
#[derive(Debug)]
pub struct TextureImage {
    data: Vec<u8>,
    width: u32,
    height: u32,
}

impl View for TextureImage {
    type V = Raster;

    closed spec fn view(&self) -> Raster {
        Raster { width: self.width as nat, height: self.height as nat, data: self.data@ }
    }
}

/// The outcome of a constructor with the image, if there is one, taken by
/// its view.
pub open spec fn spec_raster_of(r: Result<TextureImage, ResourceCreationError>) -> Result<
    Raster,
    ResourceCreationError,
> {
    match r {
        Ok(image) => Ok(image@),
        Err(e) => Err(e),
    }
}

impl TextureImage {
    /// Every image has pixels, and exactly four bytes for each.
    #[verifier::type_invariant]
    closed spec fn well_formed(self) -> bool {
        &&& self.width > 0
        &&& self.height > 0
        &&& self.data@.len() == 4 * self.width * self.height
    }

    /// Builds a texture image from RGBA8 rows given top row first, as image
    /// decoders give them. The rows are put in the opposite vertical order.
    /// An image without pixels is refused, and so is one whose byte count
    /// does not fit its size.
    pub fn from_top_down(data: Vec<u8>, width: u32, height: u32) -> (r: Result<
        TextureImage,
        ResourceCreationError,
    >)
        ensures
            spec_raster_of(r) == spec_from_top_down(data@, width, height),
    {
        if width == 0 || height == 0 {
            return Err(ResourceCreationError::EmptyImage);
        }
        let row_bytes: u128 = 4 * (width as u128);
        assert(row_bytes * height <= 0x4_0000_0000 * 0x1_0000_0000) by (nonlinear_arith)
            requires
                row_bytes <= 0x4_0000_0000,
                height <= 0x1_0000_0000,
        ;
        let wanted: u128 = row_bytes * (height as u128);
        if data.len() as u128 != wanted {
            return Err(ResourceCreationError::DimensionMismatch);
        }
        proof {
            assert(4 * width <= 4 * width * height) by (nonlinear_arith)
                requires
                    width > 0,
                    height >= 1,
            ;
            assert(4 * width * height == (4 * width) * height) by (nonlinear_arith);
            lemma_rows_reversed_is_flip(data@, 4 * width, height as int);
        }
        let bottom_up = reverse_rows(&data, width, height);
        Ok(TextureImage { data: bottom_up, width, height })
    }

    /// Decodes a PNG file held in memory and builds the texture image from
    /// its pixels.
    pub fn from_png(bytes: &[u8]) -> (r: Result<TextureImage, ResourceCreationError>)
        ensures
            spec_raster_of(r) == spec_from_decoded(png_rgba8(bytes@)),
    {
        match decode_png(bytes) {
            Ok((data, width, height)) => TextureImage::from_top_down(data, width, height),
            Err(_) => Err(ResourceCreationError::ImageDecode),
        }
    }

    /// Width in pixels.
    pub fn width(&self) -> (w: u32)
        ensures
            w == self@.width,
            w > 0,
    {
        proof {
            use_type_invariant(self);
        }
        self.width
    }

    /// Height in pixels.
    pub fn height(&self) -> (h: u32)
        ensures
            h == self@.height,
            h > 0,
    {
        proof {
            use_type_invariant(self);
        }
        self.height
    }

    /// The pixel bytes, bottom row first.
    pub fn data(&self) -> (d: &Vec<u8>)
        ensures
            d@ == self@.data,
            d@.len() == 4 * self@.width * self@.height,
    {
        proof {
            use_type_invariant(self);
        }
        &self.data
    }

    /// Gives the pixel bytes up, bottom row first.
    pub fn into_data(self) -> (d: Vec<u8>)
        ensures
            d@ == self@.data,
            d@.len() == 4 * self@.width * self@.height,
    {
        proof {
            use_type_invariant(&self);
        }
        self.data
    }
}

} // verus!
