use terrain_viewer::mesh::{GridVertex, MeshDescriptor};
use terrain_viewer::meshgen::Heightmap;

/// A `width` by `height` image whose red channel at (x, y) is `10 * x + y`.
fn ramp(width: u32, height: u32) -> Heightmap {
    let mut rgba = Vec::new();
    for y in 0..height {
        for x in 0..width {
            rgba.push((10 * x + y) as u8);
            rgba.push(7);
            rgba.push(8);
            rgba.push(255);
        }
    }
    Heightmap::from_rgba(width, height, rgba).unwrap()
}

#[test]
fn heightmap_needs_four_bytes_a_pixel() {
    assert!(Heightmap::from_rgba(2, 2, vec![0; 15]).is_none());
    assert!(Heightmap::from_rgba(2, 2, vec![0; 17]).is_none());
    assert!(Heightmap::from_rgba(0, 2, vec![]).is_none());
    assert!(Heightmap::from_rgba(2, 0, vec![]).is_none());
    let m = Heightmap::from_rgba(2, 2, vec![0; 16]).unwrap();
    assert_eq!((m.width(), m.height()), (2, 2));
}

#[test]
fn heightmap_reads_red_channel() {
    let m = ramp(3, 2);
    assert_eq!(m.red_at(0, 0), 0);
    assert_eq!(m.red_at(2, 0), 20);
    assert_eq!(m.red_at(1, 1), 11);
    assert_eq!(m.red_at(2, 1), 21);
}

#[test]
fn four_by_four_grid_counts() {
    let d = MeshDescriptor::from_height_map(&ramp(8, 8), 4, 4);
    assert_eq!(d.vertices.len(), 16);
    assert_eq!(d.triangles.len(), 3 * 3 * 6);
    assert_eq!(d.indices_count(), 54);
    assert!(d.triangles.iter().all(|&i| i < 16));
}

#[test]
fn grid_vertices_sample_nearest_pixel() {
    let d = MeshDescriptor::from_height_map(&ramp(8, 8), 4, 4);
    assert_eq!((d.columns, d.rows, d.width, d.height), (4, 4, 8, 8));
    // Vertex (x, y) stands at y + 4 * x and samples pixel (2x, 2y).
    assert_eq!(
        d.vertices[0],
        GridVertex { column: 0, row: 0, pixel_x: 0, pixel_y: 0, elevation: 0 }
    );
    assert_eq!(
        d.vertices[1],
        GridVertex { column: 0, row: 1, pixel_x: 0, pixel_y: 2, elevation: 2 }
    );
    assert_eq!(
        d.vertices[4],
        GridVertex { column: 1, row: 0, pixel_x: 2, pixel_y: 0, elevation: 20 }
    );
    assert_eq!(
        d.vertices[15],
        GridVertex { column: 3, row: 3, pixel_x: 6, pixel_y: 6, elevation: 66 }
    );
}

#[test]
fn sample_positions_round_down() {
    let d = MeshDescriptor::from_height_map(&ramp(5, 3), 3, 2);
    // Columns at 0, 5/3, 10/3 and rows at 0, 3/2, rounded down.
    let pixels: Vec<(u32, u32)> = d.vertices.iter().map(|v| (v.pixel_x, v.pixel_y)).collect();
    assert_eq!(pixels, vec![(0, 0), (0, 1), (1, 0), (1, 1), (3, 0), (3, 1)]);
    assert_eq!(d.vertices[5].elevation, 31);
}

#[test]
fn cells_give_two_ccw_triangles() {
    let d = MeshDescriptor::from_height_map(&ramp(8, 8), 4, 4);
    assert_eq!(&d.triangles[0..6], &[0, 1, 4, 1, 5, 4]);
    // Cell (0, 1) comes next, then cell (1, 0) after the column's three cells.
    assert_eq!(&d.triangles[6..12], &[1, 2, 5, 2, 6, 5]);
    assert_eq!(&d.triangles[18..24], &[4, 5, 8, 5, 9, 8]);
    assert_eq!(&d.triangles[48..54], &[10, 11, 14, 11, 15, 14]);
}

#[test]
fn single_column_gives_no_triangles() {
    let d = MeshDescriptor::from_height_map(&ramp(4, 4), 1, 4);
    assert_eq!(d.vertices.len(), 4);
    assert!(d.triangles.is_empty());
}

#[test]
fn single_row_gives_no_triangles() {
    let d = MeshDescriptor::from_height_map(&ramp(4, 4), 4, 1);
    assert_eq!(d.vertices.len(), 4);
    assert!(d.triangles.is_empty());
}

#[test]
fn non_positive_grid_is_empty() {
    let d = MeshDescriptor::from_height_map(&ramp(4, 4), 0, 4);
    assert!(d.vertices.is_empty());
    assert!(d.triangles.is_empty());
    let d = MeshDescriptor::from_height_map(&ramp(4, 4), 3, -2);
    assert!(d.vertices.is_empty());
    assert!(d.triangles.is_empty());
}

#[test]
fn grid_finer_than_image_repeats_pixels() {
    let d = MeshDescriptor::from_height_map(&ramp(2, 2), 4, 2);
    let xs: Vec<u32> = d.vertices.iter().map(|v| v.pixel_x).collect();
    assert_eq!(xs, vec![0, 0, 0, 0, 1, 1, 1, 1]);
    assert_eq!(d.triangles.len(), 3 * 6);
}
