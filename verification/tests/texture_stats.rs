use progetto::byte_image::ImageFeature;
use progetto::texture::TextureFeature;

fn image(width: usize, rows: Vec<Vec<u8>>) -> ImageFeature {
    ImageFeature { width, height: rows.len(), matrix: rows }
}

#[test]
fn edge_counts_interior_only() {
    // a bright vertical stripe in the middle column of a 3x3 image
    let img = image(3, vec![vec![0, 200, 0], vec![0, 200, 0], vec![0, 200, 0]]);
    assert_eq!(TextureFeature::edge_counts(&img), (0, 1));
    // strong horizontal gradient at the centre: gx = 100 - 0 = 100 > 30
    let img = image(3, vec![vec![0, 0, 0], vec![0, 50, 100], vec![0, 0, 0]]);
    assert_eq!(TextureFeature::edge_counts(&img), (1, 1));
    // gradient magnitude exactly 30 is not an edge
    let img = image(3, vec![vec![0, 0, 0], vec![0, 0, 30], vec![0, 0, 0]]);
    assert_eq!(TextureFeature::edge_counts(&img), (0, 1));
    let small = image(2, vec![vec![1, 2], vec![3, 4]]);
    assert_eq!(TextureFeature::edge_counts(&small), (0, 0));
}

#[test]
fn lbp_code_of_centre_pixel() {
    // neighbours clockwise from the upper left: only the right one (bit 3)
    // and the lower right one (bit 4) are at least as bright as the centre
    let img = image(3, vec![vec![0, 0, 0], vec![0, 10, 10], vec![0, 0, 20]]);
    let (hist, total) = TextureFeature::lbp_counts(&img);
    assert_eq!(total, 1);
    assert_eq!(hist[8 + 16], 1);
    assert_eq!(hist.iter().sum::<usize>(), 1);
}

#[test]
fn glcm_counts_horizontal_pairs() {
    // values quantised to 32 levels: 0 -> 0, 8 -> 1, 255 -> 31
    let img = image(3, vec![vec![0, 8, 255], vec![8, 8, 8]]);
    let (g, pairs) = TextureFeature::glcm_counts(&img);
    assert_eq!(pairs, 4);
    assert_eq!(g.len(), 1024);
    assert_eq!(g[0 * 32 + 1], 1);
    assert_eq!(g[1 * 32 + 31], 1);
    assert_eq!(g[1 * 32 + 1], 2);
    assert_eq!(g.iter().sum::<usize>(), pairs);
}

#[test]
fn block_grid_cuts_edges_short() {
    let img = ImageFeature::extract(&vec![1u8; 32 * 20]);
    assert_eq!((img.width, img.height), (32, 20));
    let grid = TextureFeature::block_grid(&img, 16);
    assert_eq!(grid.len(), 2 * 2);
    assert_eq!((grid[0].y0, grid[0].y1, grid[0].x0, grid[0].x1), (0, 16, 0, 16));
    assert_eq!((grid[1].y0, grid[1].y1, grid[1].x0, grid[1].x1), (0, 16, 16, 32));
    assert_eq!((grid[3].y0, grid[3].y1, grid[3].x0, grid[3].x1), (16, 20, 16, 32));
    let (hist, total) = TextureFeature::block_histogram(&img, &grid[3]);
    assert_eq!(total, 4 * 16);
    assert_eq!(hist[1], 64);
    assert_eq!(hist.iter().sum::<usize>(), total);
}

#[test]
fn texture_extract_totals() {
    let data: Vec<u8> = (0..200u32).map(|i| (i * 37 % 256) as u8).collect();
    let img = ImageFeature::extract(&data);
    let t = TextureFeature::extract(&img);
    assert_eq!(t.edge_total, (img.height - 2) * (img.width - 2));
    assert_eq!(t.lbp_total, t.edge_total);
    assert_eq!(t.lbp_counts.iter().sum::<usize>(), t.lbp_total);
    assert_eq!(t.glcm_pairs, img.height * (img.width - 1));
    assert_eq!(t.glcm_counts.iter().sum::<usize>(), t.glcm_pairs);
}

#[test]
fn longer_rows_are_read_up_to_width() {
    // rows longer than the width: only the first `width` columns count
    let img = image(3, vec![vec![0, 0, 0, 99, 99], vec![0, 10, 10, 99], vec![0, 0, 20, 99, 99, 99]]);
    let (hist, total) = TextureFeature::lbp_counts(&img);
    assert_eq!(total, 1);
    assert_eq!(hist[8 + 16], 1);
    let (glcm, pairs) = TextureFeature::glcm_counts(&img);
    assert_eq!(pairs, 3 * 2);
    assert_eq!(glcm.iter().sum::<usize>(), 6);
}

#[test]
fn lbp_of_short_image_reads_nothing() {
    // fewer than three rows: no interior pixel, whatever the rows hold
    let img = ImageFeature { width: 4, height: 2, matrix: vec![vec![1], vec![]] };
    let (hist, total) = TextureFeature::lbp_counts(&img);
    assert_eq!(total, 0);
    assert!(hist.iter().all(|&c| c == 0));
    assert_eq!(TextureFeature::edge_counts(&img), (0, 0));
}
