//! Integer texture statistics of the byte image: block histograms, edge
//! counts, grey-level co-occurrence counts and local binary patterns.
use vstd::prelude::*;

use crate::byte_image::ImageFeature;

verus! {

/// Number of quantisation levels of the co-occurrence matrix.
pub const GLCM_LEVELS: usize = 32;

/// Side of the square blocks over which block histograms are taken.
pub const BLOCK_SIZE: usize = 16;

/// Which per-pixel key a count is taken over.
pub enum PixelKey {
    /// The pixel's value.
    Value,
    /// The pair (pixel, right neighbour), both quantised to `GLCM_LEVELS` levels.
    Cooccurrence,
    /// The 8-neighbour local binary pattern code.
    LocalPattern,
    /// 1 where the simplified gradient magnitude exceeds 30, else 0.
    Edge,
}

/// Integer texture statistics of a byte image.
///
/// The ratios of the CSV feature set are the counts divided by the totals.
#[derive(Debug)]
pub struct TextureFeature {
    /// Interior pixels whose gradient magnitude exceeds 30.
    pub edge_count: usize,
    /// Interior pixels examined for edges.
    pub edge_total: usize,
    /// Co-occurrence counts, row-major: index `i * GLCM_LEVELS + j`.
    pub glcm_counts: Vec<usize>,
    /// Horizontal pixel pairs counted in `glcm_counts`.
    pub glcm_pairs: usize,
    /// Histogram of local binary pattern codes.
    pub lbp_counts: Vec<usize>,
    /// Interior pixels counted in `lbp_counts`.
    pub lbp_total: usize,
}

pub open spec fn px(img: &ImageFeature, y: int, x: int) -> int {
    img.matrix@[y]@[x] as int
}

/// Quantisation of a byte to `GLCM_LEVELS` levels.
pub open spec fn quant(v: int) -> int {
    (v * 32) / 256
}

/// Bit `k` of the local binary pattern: neighbour at least as bright as the centre.
pub open spec fn lbp_bit(img: &ImageFeature, y: int, x: int, dy: int, dx: int, weight: int) -> int {
    if px(img, y + dy, x + dx) >= px(img, y, x) {
        weight
    } else {
        0
    }
}

/// Local binary pattern code, neighbours taken clockwise from the upper left.
pub open spec fn lbp_code(img: &ImageFeature, y: int, x: int) -> int {
    lbp_bit(img, y, x, -1, -1, 1) + lbp_bit(img, y, x, -1, 0, 2) + lbp_bit(img, y, x, -1, 1, 4)
        + lbp_bit(img, y, x, 0, 1, 8) + lbp_bit(img, y, x, 1, 1, 16) + lbp_bit(img, y, x, 1, 0, 32)
        + lbp_bit(img, y, x, 1, -1, 64) + lbp_bit(img, y, x, 0, -1, 128)
}

/// Squared simplified Sobel gradient above 30 squared.
pub open spec fn is_edge(img: &ImageFeature, y: int, x: int) -> bool {
    let gx = px(img, y, x + 1) - px(img, y, x - 1);
    let gy = px(img, y + 1, x) - px(img, y - 1, x);
    gx * gx + gy * gy > 900
}

pub open spec fn key_at(img: &ImageFeature, kind: PixelKey, y: int, x: int) -> int {
    match kind {
        PixelKey::Value => px(img, y, x),
        PixelKey::Cooccurrence => quant(px(img, y, x)) * 32 + quant(px(img, y, x + 1)),
        PixelKey::LocalPattern => lbp_code(img, y, x),
        PixelKey::Edge => if is_edge(img, y, x) {
            1
        } else {
            0
        },
    }
}

/// Positions `x0 <= x < x1` of row `y` whose key is `v`.
pub open spec fn row_count(img: &ImageFeature, kind: PixelKey, v: int, y: int, x0: int, x1: int) -> nat
    decreases x1 - x0,
{
    if x1 <= x0 {
        0
    } else {
        row_count(img, kind, v, y, x0, x1 - 1) + if key_at(img, kind, y, x1 - 1) == v {
            1nat
        } else {
            0nat
        }
    }
}

/// Positions of the rectangle `y0 <= y < y1`, `x0 <= x < x1` whose key is `v`.
pub open spec fn rect_count(
    img: &ImageFeature,
    kind: PixelKey,
    v: int,
    y0: int,
    y1: int,
    x0: int,
    x1: int,
) -> nat
    decreases y1 - y0,
{
    if y1 <= y0 {
        0
    } else {
        rect_count(img, kind, v, y0, y1 - 1, x0, x1) + row_count(img, kind, v, y1 - 1, x0, x1)
    }
}

proof fn lemma_row_count_bound(img: &ImageFeature, kind: PixelKey, v: int, y: int, x0: int, x1: int)
    requires
        x0 <= x1,
    ensures
        row_count(img, kind, v, y, x0, x1) <= x1 - x0,
    decreases x1 - x0,
{
    if x1 > x0 {
        lemma_row_count_bound(img, kind, v, y, x0, x1 - 1);
    }
}

proof fn lemma_rect_count_bound(
    img: &ImageFeature,
    kind: PixelKey,
    v: int,
    y0: int,
    y1: int,
    x0: int,
    x1: int,
)
    requires
        y0 <= y1,
        x0 <= x1,
    ensures
        rect_count(img, kind, v, y0, y1, x0, x1) <= (y1 - y0) * (x1 - x0),
    decreases y1 - y0,
{
    if y1 > y0 {
        lemma_rect_count_bound(img, kind, v, y0, y1 - 1, x0, x1);
        lemma_row_count_bound(img, kind, v, y1 - 1, x0, x1);
        assert((y1 - 1 - y0) * (x1 - x0) + (x1 - x0) == (y1 - y0) * (x1 - x0)) by (nonlinear_arith);
    }
}

/// A vector of `n` zeros.
pub fn zeros(n: usize) -> (r: Vec<usize>)
    ensures
        r@.len() == n,
        forall|i: int| 0 <= i < n ==> #[trigger] r@[i] == 0,
{
    let mut r: Vec<usize> = Vec::new();
    let mut i: usize = 0;
    while i < n
        invariant
            i <= n,
            r@.len() == i,
            forall|k: int| 0 <= k < i ==> #[trigger] r@[k] == 0,
        decreases n - i,
    {
        r.push(0);
        i += 1;
    }
    r
}

/// Number of distinct keys of a kind.
pub open spec fn key_range(kind: PixelKey) -> int {
    match kind {
        PixelKey::Value => 256,
        PixelKey::Cooccurrence => 1024,
        PixelKey::LocalPattern => 256,
        PixelKey::Edge => 2,
    }
}

/// The key of a kind can be read at `(y, x)` without leaving the matrix.
pub open spec fn key_defined(img: &ImageFeature, kind: PixelKey, y: int, x: int) -> bool {
    match kind {
        PixelKey::Value => 0 <= y < img.height && 0 <= x < img.width,
        PixelKey::Cooccurrence => 0 <= y < img.height && 0 <= x && x + 1 < img.width,
        PixelKey::LocalPattern => 1 <= y && y + 1 < img.height && 1 <= x && x + 1 < img.width,
        PixelKey::Edge => 1 <= y && y + 1 < img.height && 1 <= x && x + 1 < img.width,
    }
}

fn key_of(img: &ImageFeature, kind: &PixelKey, y: usize, x: usize) -> (k: usize)
    requires
        crate::byte_image::image_wf(img),
        key_defined(img, *kind, y as int, x as int),
    ensures
        k == key_at(img, *kind, y as int, x as int),
        k < key_range(*kind),
{
    let rows = img.matrix.len();
    proof {
        assert(img.matrix@[y as int]@.len() >= img.width);
    }
    match kind {
        PixelKey::Value => img.matrix[y][x] as usize,
        PixelKey::Cooccurrence => {
            let i = (img.matrix[y][x] as usize * 32) / 256;
            let j = (img.matrix[y][x + 1] as usize * 32) / 256;
            i * 32 + j
        },
        PixelKey::LocalPattern => {
            proof {
                assert(img.matrix@[y - 1]@.len() >= img.width);
                assert(img.matrix@[y + 1]@.len() >= img.width);
            }
            let c = img.matrix[y][x];
            let up = &img.matrix[y - 1];
            let mid = &img.matrix[y];
            let down = &img.matrix[y + 1];
            let mut code: usize = 0;
            if up[x - 1] >= c {
                code += 1;
            }
            if up[x] >= c {
                code += 2;
            }
            if up[x + 1] >= c {
                code += 4;
            }
            if mid[x + 1] >= c {
                code += 8;
            }
            if down[x + 1] >= c {
                code += 16;
            }
            if down[x] >= c {
                code += 32;
            }
            if down[x - 1] >= c {
                code += 64;
            }
            if mid[x - 1] >= c {
                code += 128;
            }
            code
        },
        PixelKey::Edge => {
            proof {
                assert(img.matrix@[y - 1]@.len() >= img.width);
                assert(img.matrix@[y + 1]@.len() >= img.width);
            }
            let gx: i32 = img.matrix[y][x + 1] as i32 - img.matrix[y][x - 1] as i32;
            let gy: i32 = img.matrix[y + 1][x] as i32 - img.matrix[y - 1][x] as i32;
            assert(0 <= gx * gx <= 65025 && 0 <= gy * gy <= 65025) by (nonlinear_arith)
                requires
                    -255 <= gx <= 255,
                    -255 <= gy <= 255,
            ;
            if gx * gx + gy * gy > 900 {
                1
            } else {
                0
            }
        },
    }
}

/// Counts, for every key of `kind`, the positions of the rectangle
/// `y0 <= y < y1`, `x0 <= x < x1` that carry it.
pub fn histogram(img: &ImageFeature, kind: PixelKey, y0: usize, y1: usize, x0: usize, x1: usize) -> (r: Vec<usize>)
    requires
        crate::byte_image::image_wf(img),
        y0 <= y1 <= img.height,
        x0 <= x1 <= img.width,
        forall|y: int, x: int| y0 <= y < y1 && x0 <= x < x1 ==> key_defined(img, kind, y, x),
    ensures
        r@.len() == key_range(kind),
        forall|v: int| 0 <= v < key_range(kind) ==> #[trigger] r@[v] == rect_count(img, kind, v, y0 as int, y1 as int, x0 as int, x1 as int),
{
    let n = match kind {
        PixelKey::Value => 256,
        PixelKey::Cooccurrence => 1024,
        PixelKey::LocalPattern => 256,
        PixelKey::Edge => 2,
    };
    let mut hist = zeros(n);
    let ghost w = (x1 - x0) as int;
    let mut y = y0;
    while y < y1
        invariant
            crate::byte_image::image_wf(img),
            y0 <= y <= y1 <= img.height,
            x0 <= x1 <= img.width,
            w == x1 - x0,
            n == key_range(kind),
            forall|yy: int, xx: int| y0 <= yy < y1 && x0 <= xx < x1 ==> key_defined(img, kind, yy, xx),
            hist@.len() == n,
            forall|v: int| 0 <= v < n ==> #[trigger] hist@[v] == rect_count(img, kind, v, y0 as int, y as int, x0 as int, x1 as int),
        decreases y1 - y,
    {
        let mut x = x0;
        while x < x1
            invariant
                crate::byte_image::image_wf(img),
                y0 <= y < y1 <= img.height,
                x0 <= x <= x1 <= img.width,
                w == x1 - x0,
                n == key_range(kind),
                forall|yy: int, xx: int| y0 <= yy < y1 && x0 <= xx < x1 ==> key_defined(img, kind, yy, xx),
                hist@.len() == n,
                forall|v: int| 0 <= v < n ==> #[trigger] hist@[v] == rect_count(img, kind, v, y0 as int, y as int, x0 as int, x1 as int)
                    + row_count(img, kind, v, y as int, x0 as int, x as int),
            decreases x1 - x,
        {
            let k = key_of(img, &kind, y, x);
            proof {
                lemma_rect_count_bound(img, kind, k as int, y0 as int, y as int, x0 as int, x1 as int);
                lemma_row_count_bound(img, kind, k as int, y as int, x0 as int, x as int);
                assert((y - y0) * w + (x - x0) < img.height * img.width) by (nonlinear_arith)
                    requires
                        y0 <= y < img.height,
                        x0 <= x < x1 <= img.width,
                        w == x1 - x0,
                ;
            }
            let old_count = hist[k];
            hist.set(k, old_count + 1);
            x += 1;
        }
        y += 1;
    }
    hist
}

/// `r` holds the edge, co-occurrence and local binary pattern statistics of `img`.
pub open spec fn is_texture_of(r: &TextureFeature, img: &ImageFeature) -> bool {
    &&& (r.edge_count, r.edge_total) == TextureFeature::spec_edge_counts(img)
    &&& r.glcm_counts@.len() == 1024
    &&& r.lbp_counts@.len() == 256
    &&& img.width >= 1 ==> r.glcm_pairs == img.height * (img.width - 1)
    &&& img.width == 0 ==> r.glcm_pairs == 0
    &&& forall|v: int| 0 <= v < 1024 ==> #[trigger] r.glcm_counts@[v] == rect_count(img, PixelKey::Cooccurrence, v, 0, img.height as int, 0, if img.width >= 1 { img.width - 1 } else { 0 })
    &&& img.height < 3 || img.width < 3 ==> r.lbp_total == 0 && forall|v: int| 0 <= v < 256 ==> #[trigger] r.lbp_counts@[v] == 0
    &&& img.height >= 3 && img.width >= 3 ==> {
        &&& r.lbp_total == (img.height - 2) * (img.width - 2)
        &&& forall|v: int| 0 <= v < 256 ==> #[trigger] r.lbp_counts@[v] == rect_count(img, PixelKey::LocalPattern, v, 1, img.height - 1, 1, img.width - 1)
    }
}

/// A rectangle of the image: rows `y0 <= y < y1`, columns `x0 <= x < x1`.
#[derive(Debug, Clone, Copy)]
pub struct Block {
    pub y0: usize,
    pub y1: usize,
    pub x0: usize,
    pub x1: usize,
}

/// End of the block that starts at `start`, cut at `limit`.
pub open spec fn block_end(start: int, size: int, limit: int) -> int {
    if start + size < limit {
        start + size
    } else {
        limit
    }
}

/// Number of blocks of `size` needed to cover `len`.
pub open spec fn block_count(len: int, size: int) -> int {
    (len + size - 1) / size
}

/// Block `k` of the row-major grid of `size` by `size` blocks over the image.
pub open spec fn grid_block(img: &ImageFeature, size: int, k: int) -> (int, int, int, int) {
    let cols = block_count(img.width as int, size);
    let y0 = (k / cols) * size;
    let x0 = (k % cols) * size;
    (y0, block_end(y0, size, img.height as int), x0, block_end(x0, size, img.width as int))
}

impl TextureFeature {
    /// The non-overlapping `block_size` by `block_size` blocks that cover the
    /// image, row by row; blocks at the right and bottom edges are cut short.
    pub fn block_grid(img: &ImageFeature, block_size: usize) -> (r: Vec<Block>)
        requires
            crate::byte_image::image_wf(img),
            block_size > 0,
        ensures
            r@.len() == block_count(img.height as int, block_size as int) * block_count(img.width as int, block_size as int),
            forall|k: int| 0 <= k < r@.len() ==> {
                let b = #[trigger] r@[k];
                (b.y0 as int, b.y1 as int, b.x0 as int, b.x1 as int) == grid_block(img, block_size as int, k)
            },
            forall|k: int| 0 <= k < r@.len() ==> {
                let b = #[trigger] r@[k];
                b.y0 < b.y1 <= img.height && b.x0 < b.x1 <= img.width
            },
    {
        let h = img.height;
        let w = img.width;
        let rows = ceil_div(h, block_size);
        let cols = ceil_div(w, block_size);
        let mut out: Vec<Block> = Vec::new();
        let mut i: usize = 0;
        while i < rows
            invariant
                block_size > 0,
                rows == block_count(h as int, block_size as int),
                cols == block_count(w as int, block_size as int),
                h == img.height,
                w == img.width,
                i <= rows,
                out@.len() == i * cols,
                forall|k: int| 0 <= k < out@.len() ==> {
                    let b = #[trigger] out@[k];
                    (b.y0 as int, b.y1 as int, b.x0 as int, b.x1 as int) == grid_block(img, block_size as int, k)
                },
                forall|k: int| 0 <= k < out@.len() ==> {
                    let b = #[trigger] out@[k];
                    b.y0 < b.y1 <= img.height && b.x0 < b.x1 <= img.width
                },
            decreases rows - i,
        {
            proof {
                lemma_block_start(i as int, block_size as int, h as int);
            }
            let y0 = i * block_size;
            let y1 = if block_size < h - y0 { y0 + block_size } else { h };
            let mut j: usize = 0;
            while j < cols
                invariant
                    block_size > 0,
                    rows == block_count(h as int, block_size as int),
                    cols == block_count(w as int, block_size as int),
                    h == img.height,
                    w == img.width,
                    i < rows,
                    j <= cols,
                    y0 == i * block_size,
                    y0 < h,
                    y1 == block_end(y0 as int, block_size as int, h as int),
                    out@.len() == i * cols + j,
                    forall|k: int| 0 <= k < out@.len() ==> {
                        let b = #[trigger] out@[k];
                        (b.y0 as int, b.y1 as int, b.x0 as int, b.x1 as int) == grid_block(img, block_size as int, k)
                    },
                    forall|k: int| 0 <= k < out@.len() ==> {
                        let b = #[trigger] out@[k];
                        b.y0 < b.y1 <= img.height && b.x0 < b.x1 <= img.width
                    },
                decreases cols - j,
            {
                proof {
                    lemma_block_start(j as int, block_size as int, w as int);
                    let k = (i * cols + j) as int;
                    assert(k / (cols as int) == i && k % (cols as int) == j) by (nonlinear_arith)
                        requires
                            k == i * cols + j,
                            0 <= j < cols,
                            0 <= i,
                    ;
                }
                let x0 = j * block_size;
                let x1 = if block_size < w - x0 { x0 + block_size } else { w };
                out.push(Block { y0, y1, x0, x1 });
                j += 1;
            }
            proof {
                assert(out@.len() == (i + 1) * cols) by (nonlinear_arith)
                    requires
                        out@.len() == i * cols + cols,
                ;
            }
            i += 1;
        }
        out
    }
}

impl TextureFeature {
    /// Histogram of the pixel values inside one block of the image, with the
    /// number of pixels it covers.
    pub fn block_histogram(img: &ImageFeature, b: &Block) -> (r: (Vec<usize>, usize))
        requires
            crate::byte_image::image_wf(img),
            b.y0 < b.y1 <= img.height,
            b.x0 < b.x1 <= img.width,
        ensures
            r.0@.len() == 256,
            forall|v: int| 0 <= v < 256 ==> #[trigger] r.0@[v] == rect_count(img, PixelKey::Value, v, b.y0 as int, b.y1 as int, b.x0 as int, b.x1 as int),
            r.1 == (b.y1 - b.y0) * (b.x1 - b.x0),
    {
        let counts = histogram(img, PixelKey::Value, b.y0, b.y1, b.x0, b.x1);
        proof {
            assert((b.y1 - b.y0) * (b.x1 - b.x0) <= img.height * img.width) by (nonlinear_arith)
                requires
                    b.y0 < b.y1 <= img.height,
                    b.x0 < b.x1 <= img.width,
            ;
        }
        (counts, (b.y1 - b.y0) * (b.x1 - b.x0))
    }

    /// Interior pixels (one pixel away from every border) whose simplified
    /// gradient magnitude exceeds 30, and the number of interior pixels.
    /// Images narrower or shorter than 3 pixels have no interior.
    pub fn edge_counts(img: &ImageFeature) -> (r: (usize, usize))
        requires
            img.height < 3 || img.width < 3 || crate::byte_image::image_wf(img),
        ensures
            img.height < 3 || img.width < 3 ==> r == (0usize, 0usize),
            img.height >= 3 && img.width >= 3 ==> {
                &&& r.0 == rect_count(img, PixelKey::Edge, 1, 1, img.height - 1, 1, img.width - 1)
                &&& r.1 == (img.height - 2) * (img.width - 2)
            },
    {
        if img.height < 3 || img.width < 3 {
            return (0, 0);
        }
        let h = img.height;
        let w = img.width;
        let counts = histogram(img, PixelKey::Edge, 1, h - 1, 1, w - 1);
        proof {
            assert((h - 2) * (w - 2) <= img.height * img.width) by (nonlinear_arith)
                requires
                    3 <= h == img.height,
                    3 <= w == img.width,
            ;
        }
        (counts[1], (h - 2) * (w - 2))
    }

    /// Co-occurrence counts of horizontally adjacent pixels quantised to 32
    /// levels (index `i * 32 + j` for the pair (i, j)), and the number of pairs.
    pub fn glcm_counts(img: &ImageFeature) -> (r: (Vec<usize>, usize))
        requires
            crate::byte_image::image_wf(img),
        ensures
            r.0@.len() == 1024,
            img.width >= 1 ==> r.1 == img.height * (img.width - 1),
            img.width == 0 ==> r.1 == 0,
            forall|v: int| 0 <= v < 1024 ==> #[trigger] r.0@[v] == rect_count(img, PixelKey::Cooccurrence, v, 0, img.height as int, 0, if img.width >= 1 { img.width - 1 } else { 0 }),
    {
        let h = img.height;
        let xw = if img.width >= 1 { img.width - 1 } else { 0 };
        let counts = histogram(img, PixelKey::Cooccurrence, 0, h, 0, xw);
        proof {
            assert(h * xw <= img.height * img.width) by (nonlinear_arith)
                requires
                    h == img.height,
                    xw <= img.width,
            ;
        }
        (counts, h * xw)
    }

    /// Histogram of the local binary pattern codes of the interior pixels,
    /// and the number of interior pixels.
    pub fn lbp_counts(img: &ImageFeature) -> (r: (Vec<usize>, usize))
        requires
            img.height < 3 || img.width < 3 || crate::byte_image::image_wf(img),
        ensures
            r.0@.len() == 256,
            img.height < 3 || img.width < 3 ==> r.1 == 0 && forall|v: int| 0 <= v < 256 ==> #[trigger] r.0@[v] == 0,
            img.height >= 3 && img.width >= 3 ==> {
                &&& r.1 == (img.height - 2) * (img.width - 2)
                &&& forall|v: int| 0 <= v < 256 ==> #[trigger] r.0@[v] == rect_count(img, PixelKey::LocalPattern, v, 1, img.height - 1, 1, img.width - 1)
            },
    {
        if img.height < 3 || img.width < 3 {
            return (zeros(256), 0);
        }
        let h = img.height;
        let w = img.width;
        let counts = histogram(img, PixelKey::LocalPattern, 1, h - 1, 1, w - 1);
        proof {
            assert((h - 2) * (w - 2) <= img.height * img.width) by (nonlinear_arith)
                requires
                    3 <= h == img.height,
                    3 <= w == img.width,
            ;
        }
        (counts, (h - 2) * (w - 2))
    }

    /// The edge, co-occurrence and local binary pattern statistics of an image.
    pub fn extract(img: &ImageFeature) -> (r: Self)
        requires
            crate::byte_image::image_wf(img),
        ensures
            is_texture_of(&r, img),
    {
        let (edge_count, edge_total) = Self::edge_counts(img);
        let (glcm_counts, glcm_pairs) = Self::glcm_counts(img);
        let (lbp_counts, lbp_total) = Self::lbp_counts(img);
        TextureFeature { edge_count, edge_total, glcm_counts, glcm_pairs, lbp_counts, lbp_total }
    }

    /// Edge count and interior size, as `edge_counts` returns them.
    pub open spec fn spec_edge_counts(img: &ImageFeature) -> (usize, usize) {
        if img.height < 3 || img.width < 3 {
            (0, 0)
        } else {
            (
                rect_count(img, PixelKey::Edge, 1, 1, img.height - 1, 1, img.width - 1) as usize,
                ((img.height - 2) * (img.width - 2)) as usize,
            )
        }
    }
}

proof fn lemma_block_start(i: int, size: int, len: int)
    requires
        0 <= i < block_count(len, size),
        size > 0,
        len >= 0,
    ensures
        0 <= i * size < len,
{
    assert(0 <= i * size < len) by (nonlinear_arith)
        requires
            0 <= i < (len + size - 1) / size,
            size > 0,
            len >= 0,
    ;
}

/// `n / d` rounded up.
fn ceil_div(n: usize, d: usize) -> (r: usize)
    requires
        d > 0,
    ensures
        r == block_count(n as int, d as int),
{
    let q = n / d;
    if n % d != 0 {
        assert(q < n) by (nonlinear_arith)
            requires
                q == n / d,
                n % d != 0,
                d > 0,
        ;
        assert(q + 1 == block_count(n as int, d as int)) by (nonlinear_arith)
            requires
                q == n / d,
                n % d != 0,
                d > 0,
        ;
        q + 1
    } else {
        assert(q == block_count(n as int, d as int)) by (nonlinear_arith)
            requires
                q == n / d,
                n % d == 0,
                d > 0,
        ;
        q
    }
}

/// Sum over the keys `v < k` of the counts of row `y`.
pub open spec fn row_sum_below(img: &ImageFeature, kind: PixelKey, k: int, y: int, x0: int, x1: int) -> int
    decreases k,
{
    if k <= 0 {
        0
    } else {
        row_sum_below(img, kind, k - 1, y, x0, x1) + row_count(img, kind, k - 1, y, x0, x1)
    }
}

/// Sum over the keys `v < k` of the counts of a rectangle.
pub open spec fn rect_sum_below(img: &ImageFeature, kind: PixelKey, k: int, y0: int, y1: int, x0: int, x1: int) -> int
    decreases k,
{
    if k <= 0 {
        0
    } else {
        rect_sum_below(img, kind, k - 1, y0, y1, x0, x1) + rect_count(img, kind, k - 1, y0, y1, x0, x1)
    }
}

proof fn lemma_key_in_range(img: &ImageFeature, kind: PixelKey, y: int, x: int)
    requires
        crate::byte_image::image_wf(img),
        key_defined(img, kind, y, x),
    ensures
        0 <= key_at(img, kind, y, x) < key_range(kind),
{
    match kind {
        PixelKey::Cooccurrence => {
            let a = px(img, y, x);
            let b = px(img, y, x + 1);
            assert(0 <= quant(a) < 32 && 0 <= quant(b) < 32) by (nonlinear_arith)
                requires
                    0 <= a < 256,
                    0 <= b < 256,
            ;
        },
        _ => {},
    }
}

proof fn lemma_row_sum_empty(img: &ImageFeature, kind: PixelKey, k: int, y: int, x0: int)
    ensures
        row_sum_below(img, kind, k, y, x0, x0) == 0,
    decreases k,
{
    if k > 0 {
        lemma_row_sum_empty(img, kind, k - 1, y, x0);
    }
}

proof fn lemma_row_sum_step(img: &ImageFeature, kind: PixelKey, k: int, y: int, x0: int, x1: int)
    requires
        x0 < x1,
        k >= 0,
    ensures
        row_sum_below(img, kind, k, y, x0, x1) == row_sum_below(img, kind, k, y, x0, x1 - 1)
            + if 0 <= key_at(img, kind, y, x1 - 1) < k { 1int } else { 0int },
    decreases k,
{
    if k > 0 {
        lemma_row_sum_step(img, kind, k - 1, y, x0, x1);
    }
}

proof fn lemma_row_sum_all(img: &ImageFeature, kind: PixelKey, y: int, x0: int, x1: int)
    requires
        crate::byte_image::image_wf(img),
        x0 <= x1,
        forall|x: int| x0 <= x < x1 ==> key_defined(img, kind, y, x),
    ensures
        row_sum_below(img, kind, key_range(kind), y, x0, x1) == x1 - x0,
    decreases x1 - x0,
{
    if x1 > x0 {
        lemma_row_sum_step(img, kind, key_range(kind), y, x0, x1);
        lemma_key_in_range(img, kind, y, x1 - 1);
        lemma_row_sum_all(img, kind, y, x0, x1 - 1);
    } else {
        lemma_row_sum_empty(img, kind, key_range(kind), y, x0);
    }
}

proof fn lemma_rect_sum_empty(img: &ImageFeature, kind: PixelKey, k: int, y0: int, x0: int, x1: int)
    ensures
        rect_sum_below(img, kind, k, y0, y0, x0, x1) == 0,
    decreases k,
{
    if k > 0 {
        lemma_rect_sum_empty(img, kind, k - 1, y0, x0, x1);
    }
}

proof fn lemma_rect_sum_step(img: &ImageFeature, kind: PixelKey, k: int, y0: int, y1: int, x0: int, x1: int)
    requires
        y0 < y1,
        k >= 0,
    ensures
        rect_sum_below(img, kind, k, y0, y1, x0, x1) == rect_sum_below(img, kind, k, y0, y1 - 1, x0, x1)
            + row_sum_below(img, kind, k, y1 - 1, x0, x1),
    decreases k,
{
    if k > 0 {
        lemma_rect_sum_step(img, kind, k - 1, y0, y1, x0, x1);
    }
}

proof fn lemma_rect_sum_all(img: &ImageFeature, kind: PixelKey, y0: int, y1: int, x0: int, x1: int)
    requires
        crate::byte_image::image_wf(img),
        y0 <= y1,
        x0 <= x1,
        forall|y: int, x: int| y0 <= y < y1 && x0 <= x < x1 ==> key_defined(img, kind, y, x),
    ensures
        rect_sum_below(img, kind, key_range(kind), y0, y1, x0, x1) == (y1 - y0) * (x1 - x0),
    decreases y1 - y0,
{
    if y1 > y0 {
        lemma_rect_sum_step(img, kind, key_range(kind), y0, y1, x0, x1);
        lemma_row_sum_all(img, kind, y1 - 1, x0, x1);
        lemma_rect_sum_all(img, kind, y0, y1 - 1, x0, x1);
        assert((y1 - 1 - y0) * (x1 - x0) + (x1 - x0) == (y1 - y0) * (x1 - x0)) by (nonlinear_arith);
    } else {
        lemma_rect_sum_empty(img, kind, key_range(kind), y0, x0, x1);
        assert((y1 - y0) * (x1 - x0) == 0) by (nonlinear_arith)
            requires
                y1 == y0,
        ;
    }
}

proof fn lemma_counts_sum(counts: Seq<usize>, img: &ImageFeature, kind: PixelKey, k: int, y0: int, y1: int, x0: int, x1: int)
    requires
        0 <= k <= counts.len(),
        forall|v: int| 0 <= v < k ==> #[trigger] counts[v] == rect_count(img, kind, v, y0, y1, x0, x1),
    ensures
        crate::byte_level::seq_sum(counts.take(k)) == rect_sum_below(img, kind, k, y0, y1, x0, x1),
    decreases k,
{
    if k > 0 {
        lemma_counts_sum(counts, img, kind, k - 1, y0, y1, x0, x1);
        assert(counts.take(k).drop_last() == counts.take(k - 1));
    }
}

/// The co-occurrence and local binary pattern histograms count every pixel
/// pair and every interior pixel exactly once, so their normalised forms
/// add up to 1 (when there is anything to count).
pub proof fn lemma_texture_histograms_total(r: &TextureFeature, img: &ImageFeature)
    requires
        crate::byte_image::image_wf(img),
        is_texture_of(r, img),
    ensures
        crate::byte_level::seq_sum(r.glcm_counts@) == r.glcm_pairs,
        crate::byte_level::seq_sum(r.lbp_counts@) == r.lbp_total,
{
    let xw: int = if img.width >= 1 { img.width - 1 } else { 0 };
    lemma_counts_sum(r.glcm_counts@, img, PixelKey::Cooccurrence, 1024, 0, img.height as int, 0, xw);
    assert(r.glcm_counts@.take(1024) == r.glcm_counts@);
    lemma_rect_sum_all(img, PixelKey::Cooccurrence, 0, img.height as int, 0, xw);
    assert(img.height * xw == r.glcm_pairs) by (nonlinear_arith)
        requires
            img.width >= 1 ==> r.glcm_pairs == img.height * (img.width - 1),
            img.width == 0 ==> r.glcm_pairs == 0,
            xw == if img.width >= 1 { img.width - 1 } else { 0 },
    ;
    if img.height >= 3 && img.width >= 3 {
        lemma_counts_sum(r.lbp_counts@, img, PixelKey::LocalPattern, 256, 1, img.height - 1, 1, img.width - 1);
        assert(r.lbp_counts@.take(256) == r.lbp_counts@);
        lemma_rect_sum_all(img, PixelKey::LocalPattern, 1, img.height - 1, 1, img.width - 1);
    } else {
        lemma_zero_sum(r.lbp_counts@, 256);
        assert(r.lbp_counts@.take(256) == r.lbp_counts@);
    }
}

proof fn lemma_zero_sum(s: Seq<usize>, k: int)
    requires
        0 <= k <= s.len(),
        forall|v: int| 0 <= v < s.len() ==> #[trigger] s[v] == 0,
    ensures
        crate::byte_level::seq_sum(s.take(k)) == 0,
    decreases k,
{
    if k > 0 {
        lemma_zero_sum(s, k - 1);
        assert(s.take(k).drop_last() == s.take(k - 1));
    }
}

/// A block histogram counts each pixel of the block exactly once, so the
/// frequencies that block entropy is computed from add up to 1.
pub proof fn lemma_block_histogram_total(img: &ImageFeature, b: Block, counts: Seq<usize>, total: usize)
    requires
        crate::byte_image::image_wf(img),
        b.y0 < b.y1 <= img.height,
        b.x0 < b.x1 <= img.width,
        counts.len() == 256,
        forall|v: int| 0 <= v < 256 ==> #[trigger] counts[v] == rect_count(img, PixelKey::Value, v, b.y0 as int, b.y1 as int, b.x0 as int, b.x1 as int),
        total == (b.y1 - b.y0) * (b.x1 - b.x0),
    ensures
        crate::byte_level::seq_sum(counts) == total,
{
    lemma_counts_sum(counts, img, PixelKey::Value, 256, b.y0 as int, b.y1 as int, b.x0 as int, b.x1 as int);
    assert(counts.take(256) == counts);
    lemma_rect_sum_all(img, PixelKey::Value, b.y0 as int, b.y1 as int, b.x0 as int, b.x1 as int);
}

/// The edge test does not depend on the direction of the gradient: an
/// interior pixel whose vertical neighbours differ by more than 30 is an
/// edge whatever its horizontal neighbours, and so is one whose horizontal
/// neighbours differ by more than 30; a pixel whose neighbours differ by at
/// most 21 in both directions is no edge. The single-pixel count that
/// `edge_counts` sums is 1 exactly for an edge.
pub proof fn lemma_edge_either_direction(img: &ImageFeature, y: int, x: int)
    ensures
        ({
            let up = img.matrix@[y - 1]@[x] as int;
            let down = img.matrix@[y + 1]@[x] as int;
            let left = img.matrix@[y]@[x - 1] as int;
            let right = img.matrix@[y]@[x + 1] as int;
            &&& (down - up > 30 || up - down > 30) ==> key_at(img, PixelKey::Edge, y, x) == 1
            &&& (right - left > 30 || left - right > 30) ==> key_at(img, PixelKey::Edge, y, x) == 1
            &&& (-21 <= down - up <= 21 && -21 <= right - left <= 21) ==> key_at(img, PixelKey::Edge, y, x) == 0
            &&& rect_count(img, PixelKey::Edge, 1, y, y + 1, x, x + 1) == if key_at(img, PixelKey::Edge, y, x) == 1 { 1nat } else { 0nat }
        }),
{
    let gx = px(img, y, x + 1) - px(img, y, x - 1);
    let gy = px(img, y + 1, x) - px(img, y - 1, x);
    assert(gx * gx >= 0 && gy * gy >= 0) by (nonlinear_arith);
    if gy > 30 || gy < -30 {
        assert(gy * gy > 900) by (nonlinear_arith)
            requires
                gy > 30 || gy < -30,
        ;
    }
    if gx > 30 || gx < -30 {
        assert(gx * gx > 900) by (nonlinear_arith)
            requires
                gx > 30 || gx < -30,
        ;
    }
    if -21 <= gy <= 21 && -21 <= gx <= 21 {
        assert(gx * gx + gy * gy <= 882) by (nonlinear_arith)
            requires
                -21 <= gy <= 21,
                -21 <= gx <= 21,
        ;
    }
    assert(rect_count(img, PixelKey::Edge, 1, y, y, x, x + 1) == 0);
    assert(row_count(img, PixelKey::Edge, 1, y, x, x) == 0);
}

} // verus!
verus! {

proof fn lemma_eight_bits(b0: u32, b1: u32, b2: u32, b3: u32, b4: u32, b5: u32, b6: u32, b7: u32)
    requires
        b0 <= 1, b1 <= 1, b2 <= 1, b3 <= 1, b4 <= 1, b5 <= 1, b6 <= 1, b7 <= 1,
    ensures
        b0 + 2 * b1 + 4 * b2 + 8 * b3 + 16 * b4 + 32 * b5 + 64 * b6 + 128 * b7 < 256,
        ((b0 + 2 * b1 + 4 * b2 + 8 * b3 + 16 * b4 + 32 * b5 + 64 * b6 + 128 * b7) / 1) % 2 == b0,
        ((b0 + 2 * b1 + 4 * b2 + 8 * b3 + 16 * b4 + 32 * b5 + 64 * b6 + 128 * b7) / 2) % 2 == b1,
        ((b0 + 2 * b1 + 4 * b2 + 8 * b3 + 16 * b4 + 32 * b5 + 64 * b6 + 128 * b7) / 4) % 2 == b2,
        ((b0 + 2 * b1 + 4 * b2 + 8 * b3 + 16 * b4 + 32 * b5 + 64 * b6 + 128 * b7) / 8) % 2 == b3,
        ((b0 + 2 * b1 + 4 * b2 + 8 * b3 + 16 * b4 + 32 * b5 + 64 * b6 + 128 * b7) / 16) % 2 == b4,
        ((b0 + 2 * b1 + 4 * b2 + 8 * b3 + 16 * b4 + 32 * b5 + 64 * b6 + 128 * b7) / 32) % 2 == b5,
        ((b0 + 2 * b1 + 4 * b2 + 8 * b3 + 16 * b4 + 32 * b5 + 64 * b6 + 128 * b7) / 64) % 2 == b6,
        ((b0 + 2 * b1 + 4 * b2 + 8 * b3 + 16 * b4 + 32 * b5 + 64 * b6 + 128 * b7) / 128) % 2 == b7,
{
    assert(b0 + 2 * b1 + 4 * b2 + 8 * b3 + 16 * b4 + 32 * b5 + 64 * b6 + 128 * b7 < 256) by (bit_vector)
        requires
            b0 <= 1, b1 <= 1, b2 <= 1, b3 <= 1, b4 <= 1, b5 <= 1, b6 <= 1, b7 <= 1;
    assert(((b0 + 2 * b1 + 4 * b2 + 8 * b3 + 16 * b4 + 32 * b5 + 64 * b6 + 128 * b7) / 1) % 2 == b0) by (bit_vector)
        requires
            b0 <= 1, b1 <= 1, b2 <= 1, b3 <= 1, b4 <= 1, b5 <= 1, b6 <= 1, b7 <= 1;
    assert(((b0 + 2 * b1 + 4 * b2 + 8 * b3 + 16 * b4 + 32 * b5 + 64 * b6 + 128 * b7) / 2) % 2 == b1) by (bit_vector)
        requires
            b0 <= 1, b1 <= 1, b2 <= 1, b3 <= 1, b4 <= 1, b5 <= 1, b6 <= 1, b7 <= 1;
    assert(((b0 + 2 * b1 + 4 * b2 + 8 * b3 + 16 * b4 + 32 * b5 + 64 * b6 + 128 * b7) / 4) % 2 == b2) by (bit_vector)
        requires
            b0 <= 1, b1 <= 1, b2 <= 1, b3 <= 1, b4 <= 1, b5 <= 1, b6 <= 1, b7 <= 1;
    assert(((b0 + 2 * b1 + 4 * b2 + 8 * b3 + 16 * b4 + 32 * b5 + 64 * b6 + 128 * b7) / 8) % 2 == b3) by (bit_vector)
        requires
            b0 <= 1, b1 <= 1, b2 <= 1, b3 <= 1, b4 <= 1, b5 <= 1, b6 <= 1, b7 <= 1;
    assert(((b0 + 2 * b1 + 4 * b2 + 8 * b3 + 16 * b4 + 32 * b5 + 64 * b6 + 128 * b7) / 16) % 2 == b4) by (bit_vector)
        requires
            b0 <= 1, b1 <= 1, b2 <= 1, b3 <= 1, b4 <= 1, b5 <= 1, b6 <= 1, b7 <= 1;
    assert(((b0 + 2 * b1 + 4 * b2 + 8 * b3 + 16 * b4 + 32 * b5 + 64 * b6 + 128 * b7) / 32) % 2 == b5) by (bit_vector)
        requires
            b0 <= 1, b1 <= 1, b2 <= 1, b3 <= 1, b4 <= 1, b5 <= 1, b6 <= 1, b7 <= 1;
    assert(((b0 + 2 * b1 + 4 * b2 + 8 * b3 + 16 * b4 + 32 * b5 + 64 * b6 + 128 * b7) / 64) % 2 == b6) by (bit_vector)
        requires
            b0 <= 1, b1 <= 1, b2 <= 1, b3 <= 1, b4 <= 1, b5 <= 1, b6 <= 1, b7 <= 1;
    assert(((b0 + 2 * b1 + 4 * b2 + 8 * b3 + 16 * b4 + 32 * b5 + 64 * b6 + 128 * b7) / 128) % 2 == b7) by (bit_vector)
        requires
            b0 <= 1, b1 <= 1, b2 <= 1, b3 <= 1, b4 <= 1, b5 <= 1, b6 <= 1, b7 <= 1;
}

/// Bit `k` of the local binary pattern code of a pixel is set exactly when
/// its `k`-th neighbour, going clockwise from the upper left (upper left, up,
/// upper right, right, lower right, down, lower left, left), is at least as
/// bright as the pixel; the code is below 256. The co-occurrence key of a
/// pixel holds its value and its right neighbour's, each divided by 8, as
/// the two base-32 digits of the key.
pub proof fn lemma_pixel_codes(img: &ImageFeature, y: int, x: int)
    ensures
        0 <= key_at(img, PixelKey::LocalPattern, y, x) < 256,
        (key_at(img, PixelKey::LocalPattern, y, x) / 1) % 2 == 1 <==> img.matrix@[y - 1]@[x - 1] >= img.matrix@[y]@[x],
        (key_at(img, PixelKey::LocalPattern, y, x) / 2) % 2 == 1 <==> img.matrix@[y - 1]@[x] >= img.matrix@[y]@[x],
        (key_at(img, PixelKey::LocalPattern, y, x) / 4) % 2 == 1 <==> img.matrix@[y - 1]@[x + 1] >= img.matrix@[y]@[x],
        (key_at(img, PixelKey::LocalPattern, y, x) / 8) % 2 == 1 <==> img.matrix@[y]@[x + 1] >= img.matrix@[y]@[x],
        (key_at(img, PixelKey::LocalPattern, y, x) / 16) % 2 == 1 <==> img.matrix@[y + 1]@[x + 1] >= img.matrix@[y]@[x],
        (key_at(img, PixelKey::LocalPattern, y, x) / 32) % 2 == 1 <==> img.matrix@[y + 1]@[x] >= img.matrix@[y]@[x],
        (key_at(img, PixelKey::LocalPattern, y, x) / 64) % 2 == 1 <==> img.matrix@[y + 1]@[x - 1] >= img.matrix@[y]@[x],
        (key_at(img, PixelKey::LocalPattern, y, x) / 128) % 2 == 1 <==> img.matrix@[y]@[x - 1] >= img.matrix@[y]@[x],
        key_at(img, PixelKey::Cooccurrence, y, x) / 32 == img.matrix@[y]@[x] / 8,
        key_at(img, PixelKey::Cooccurrence, y, x) % 32 == img.matrix@[y]@[x + 1] / 8,
{
    lemma_lbp_code_bits(img, y, x);
    lemma_cooccurrence_digits(img, y, x);
}

proof fn lemma_lbp_code_bits(img: &ImageFeature, y: int, x: int)
    ensures
        0 <= key_at(img, PixelKey::LocalPattern, y, x) < 256,
        (key_at(img, PixelKey::LocalPattern, y, x) / 1) % 2 == 1 <==> img.matrix@[y - 1]@[x - 1] >= img.matrix@[y]@[x],
        (key_at(img, PixelKey::LocalPattern, y, x) / 2) % 2 == 1 <==> img.matrix@[y - 1]@[x] >= img.matrix@[y]@[x],
        (key_at(img, PixelKey::LocalPattern, y, x) / 4) % 2 == 1 <==> img.matrix@[y - 1]@[x + 1] >= img.matrix@[y]@[x],
        (key_at(img, PixelKey::LocalPattern, y, x) / 8) % 2 == 1 <==> img.matrix@[y]@[x + 1] >= img.matrix@[y]@[x],
        (key_at(img, PixelKey::LocalPattern, y, x) / 16) % 2 == 1 <==> img.matrix@[y + 1]@[x + 1] >= img.matrix@[y]@[x],
        (key_at(img, PixelKey::LocalPattern, y, x) / 32) % 2 == 1 <==> img.matrix@[y + 1]@[x] >= img.matrix@[y]@[x],
        (key_at(img, PixelKey::LocalPattern, y, x) / 64) % 2 == 1 <==> img.matrix@[y + 1]@[x - 1] >= img.matrix@[y]@[x],
        (key_at(img, PixelKey::LocalPattern, y, x) / 128) % 2 == 1 <==> img.matrix@[y]@[x - 1] >= img.matrix@[y]@[x],
{
    let b0: u32 = if img.matrix@[y - 1]@[x - 1] >= img.matrix@[y]@[x] { 1 } else { 0 };
    let b1: u32 = if img.matrix@[y - 1]@[x] >= img.matrix@[y]@[x] { 1 } else { 0 };
    let b2: u32 = if img.matrix@[y - 1]@[x + 1] >= img.matrix@[y]@[x] { 1 } else { 0 };
    let b3: u32 = if img.matrix@[y]@[x + 1] >= img.matrix@[y]@[x] { 1 } else { 0 };
    let b4: u32 = if img.matrix@[y + 1]@[x + 1] >= img.matrix@[y]@[x] { 1 } else { 0 };
    let b5: u32 = if img.matrix@[y + 1]@[x] >= img.matrix@[y]@[x] { 1 } else { 0 };
    let b6: u32 = if img.matrix@[y + 1]@[x - 1] >= img.matrix@[y]@[x] { 1 } else { 0 };
    let b7: u32 = if img.matrix@[y]@[x - 1] >= img.matrix@[y]@[x] { 1 } else { 0 };
    let code = key_at(img, PixelKey::LocalPattern, y, x);
    assert(code == b0 + 2 * b1 + 4 * b2 + 8 * b3 + 16 * b4 + 32 * b5 + 64 * b6 + 128 * b7) by {
        assert(lbp_bit(img, y, x, -1, -1, 1) == b0);
        assert(lbp_bit(img, y, x, -1, 0, 2) == 2 * b1);
        assert(lbp_bit(img, y, x, -1, 1, 4) == 4 * b2);
        assert(lbp_bit(img, y, x, 0, 1, 8) == 8 * b3);
        assert(lbp_bit(img, y, x, 1, 1, 16) == 16 * b4);
        assert(lbp_bit(img, y, x, 1, 0, 32) == 32 * b5);
        assert(lbp_bit(img, y, x, 1, -1, 64) == 64 * b6);
        assert(lbp_bit(img, y, x, 0, -1, 128) == 128 * b7);
    }
    lemma_eight_bits(b0, b1, b2, b3, b4, b5, b6, b7);
}

proof fn lemma_cooccurrence_digits(img: &ImageFeature, y: int, x: int)
    ensures
        key_at(img, PixelKey::Cooccurrence, y, x) / 32 == img.matrix@[y]@[x] / 8,
        key_at(img, PixelKey::Cooccurrence, y, x) % 32 == img.matrix@[y]@[x + 1] / 8,
{
    let a = px(img, y, x);
    let c = px(img, y, x + 1);
    assert(quant(a) == a / 8 && quant(c) == c / 8 && 0 <= quant(c) < 32) by (nonlinear_arith)
        requires
            0 <= a < 256,
            0 <= c < 256,
    ;
    assert((quant(a) * 32 + quant(c)) / 32 == quant(a) && (quant(a) * 32 + quant(c)) % 32 == quant(c)) by (nonlinear_arith)
        requires
            0 <= quant(c) < 32,
            0 <= quant(a),
    ;
}

} // verus!
