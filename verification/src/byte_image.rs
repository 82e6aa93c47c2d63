//! The grayscale "byte image" of a file: its bytes laid out row by row.
use vstd::prelude::*;

verus! {

/// A file's bytes as a matrix of `width` columns, padded with zeros.
#[derive(Debug)]
pub struct ImageFeature {
    pub width: usize,
    pub height: usize,
    pub matrix: Vec<Vec<u8>>,
}

/// Row width chosen for a file of `size` bytes: larger files get wider rows.
pub open spec fn spec_width_for_size(size: int) -> int {
    if size <= 10_239 {
        32
    } else if size <= 30_719 {
        64
    } else if size <= 61_439 {
        128
    } else if size <= 102_399 {
        256
    } else if size <= 204_799 {
        384
    } else if size <= 409_599 {
        512
    } else if size <= 716_799 {
        768
    } else {
        1024
    }
}

/// Number of rows needed to hold `size` bytes in rows of `width` bytes.
pub open spec fn rows_needed(size: int, width: int) -> int {
    (size + width - 1) / width
}

/// The pixel at row `r`, column `c`: the byte at offset `r * width + c`, or 0 past the end.
pub open spec fn pixel_at(data: Seq<u8>, width: int, r: int, c: int) -> u8 {
    if r * width + c < data.len() {
        data[r * width + c]
    } else {
        0
    }
}

/// `img` is the byte image of `data` with rows of `width` bytes.
pub open spec fn is_byte_image(img: &ImageFeature, data: Seq<u8>) -> bool {
    let w = spec_width_for_size(data.len() as int);
    let h = rows_needed(data.len() as int, w);
    &&& img.width == w
    &&& img.height == h
    &&& img.matrix@.len() == (if h > 0 { h } else { 1 })
    &&& forall|r: int| 0 <= r < img.matrix@.len() ==> #[trigger] img.matrix@[r]@.len() == w
    &&& forall|r: int, c: int|
        0 <= r < img.matrix@.len() && 0 <= c < w ==> #[trigger] img.matrix@[r]@[c]
            == pixel_at(data, w, r, c)
}

/// Well-formedness of an image: at least `height` rows, each of the first
/// `height` at least `width` long, and a pixel count that fits a `usize`.
pub open spec fn image_wf(img: &ImageFeature) -> bool {
    &&& img.matrix@.len() >= img.height
    &&& img.height * img.width <= usize::MAX
    &&& forall|r: int| 0 <= r < img.height ==> #[trigger] img.matrix@[r]@.len() >= img.width
}

proof fn lemma_row_offset(r: int, w: int, len: int)
    requires
        0 < w,
        0 <= r,
        r < (len + w - 1) / w,
    ensures
        r * w < len,
        (r + 1) * w == r * w + w,
{
    assert((r + 1) * w == r * w + w) by (nonlinear_arith);
    assert(r * w < len) by (nonlinear_arith)
        requires
            0 < w,
            0 <= r,
            r < (len + w - 1) / w,
    ;
}

impl ImageFeature {
    /// Image width for a file of `size` bytes: larger files get wider images.
    pub fn width_for_size(size: usize) -> (r: usize)
        ensures
            r == spec_width_for_size(size as int),
            32 <= r <= 1024,
    {
        if size <= 10_239 {
            32
        } else if size <= 30_719 {
            64
        } else if size <= 61_439 {
            128
        } else if size <= 102_399 {
            256
        } else if size <= 204_799 {
            384
        } else if size <= 409_599 {
            512
        } else if size <= 716_799 {
            768
        } else {
            1024
        }
    }

    /// Lays the bytes out row by row; the last row is padded with zeros, and an
    /// empty input still gives one row of zeros.
    pub fn extract(raw_data: &[u8]) -> (r: Self)
        requires
            raw_data@.len() <= isize::MAX,
        ensures
            is_byte_image(&r, raw_data@),
            image_wf(&r),
    {
        let len = raw_data.len();
        let width = Self::width_for_size(len);
        let height = len / width + if len % width != 0 { 1 } else { 0 };
        assert(height == rows_needed(len as int, width as int)) by (nonlinear_arith)
            requires
                height == len / width + if len % width != 0 { 1int } else { 0int },
                width > 0,
        ;
        let rows = if height > 0 { height } else { 1 };
        let mut matrix: Vec<Vec<u8>> = Vec::new();
        let mut r: usize = 0;
        while r < rows
            invariant
                0 <= r <= rows,
                rows == (if height > 0 { height } else { 1 }),
                height == rows_needed(len as int, width as int),
                len == raw_data@.len(),
                32 <= width <= 1024,
                matrix@.len() == r,
                forall|i: int| 0 <= i < r ==> #[trigger] matrix@[i]@.len() == width,
                forall|i: int, c: int|
                    0 <= i < r && 0 <= c < width ==> #[trigger] matrix@[i]@[c] == pixel_at(
                        raw_data@,
                        width as int,
                        i,
                        c,
                    ),
            decreases rows - r,
        {
            let mut row: Vec<u8> = Vec::new();
            let base: usize = if height > 0 {
                proof {
                    lemma_row_offset(r as int, width as int, len as int);
                }
                r * width
            } else {
                0
            };
            proof {
                if height == 0 {
                    assert(r == 0);
                    assert(r * width == 0) by (nonlinear_arith)
                        requires
                            r == 0,
                    ;
                }
            }
            assert(base <= len);
            let mut c: usize = 0;
            while c < width
                invariant
                    0 <= c <= width,
                    base == r * width,
                    base <= len,
                    len == raw_data@.len(),
                    row@.len() == c,
                    forall|k: int| 0 <= k < c ==> #[trigger] row@[k] == pixel_at(
                        raw_data@,
                        width as int,
                        r as int,
                        k,
                    ),
                decreases width - c,
            {
                let v = if c < len - base {
                    raw_data[base + c]
                } else {
                    0
                };
                row.push(v);
                c += 1;
            }
            matrix.push(row);
            r += 1;
        }
        assert(rows * width <= len + width) by (nonlinear_arith)
            requires
                rows == (if height > 0 { height } else { 1 }),
                height == rows_needed(len as int, width as int),
                width > 0,
        ;
        ImageFeature { width, height, matrix }
    }
}

/// Byte `i` of `data` sits at row `i / width`, column `i % width` of the image.
pub open spec fn byte_in_image(img: &ImageFeature, data: Seq<u8>, i: int) -> bool {
    let r = i / (img.width as int);
    let c = i % (img.width as int);
    r < img.matrix@.len() && c < img.matrix@[r]@.len() && img.matrix@[r]@[c] == data[i]
}

proof fn lemma_byte_position(img: &ImageFeature, data: Seq<u8>, i: int)
    requires
        is_byte_image(img, data),
        0 <= i < data.len(),
    ensures
        byte_in_image(img, data, i),
{
    let w = img.width as int;
    let r = i / w;
    let c = i % w;
    assert(r * w + c == i && 0 <= c < w && 0 <= r) by (nonlinear_arith)
        requires
            w > 0,
            r == i / w,
            c == i % w,
            i >= 0,
    ;
    assert(r < rows_needed(data.len() as int, w)) by (nonlinear_arith)
        requires
            w > 0,
            r == i / w,
            0 <= i < data.len(),
    ;
    assert(img.matrix@[r]@[c] == pixel_at(data, w, r, c));
}

/// Every byte of the file can be read back from the image: byte `i` sits at
/// row `i / width`, column `i % width`; every other pixel is 0.
pub proof fn lemma_image_holds_bytes(img: &ImageFeature, data: Seq<u8>)
    requires
        is_byte_image(img, data),
    ensures
        forall|i: int| 0 <= i < data.len() ==> #[trigger] byte_in_image(img, data, i),
        forall|r: int, c: int| 0 <= r < img.matrix@.len() && 0 <= c < img.width && r * img.width + c >= data.len()
            ==> #[trigger] img.matrix@[r]@[c] == 0,
{
    assert forall|i: int| 0 <= i < data.len() implies #[trigger] byte_in_image(img, data, i) by {
        lemma_byte_position(img, data, i);
    }
    assert forall|r: int, c: int| 0 <= r < img.matrix@.len() && 0 <= c < img.width && r * img.width + c >= data.len()
        implies #[trigger] img.matrix@[r]@[c] == 0 by {
        assert(img.matrix@[r]@[c] == pixel_at(data, img.width as int, r, c));
    }
}

} // verus!
