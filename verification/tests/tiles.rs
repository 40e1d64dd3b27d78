use fractalwonder_ui::pixel::PixelRect;
use fractalwonder_ui::tiles::{center_distance, generate_tiles, is_tile_before};

#[test]
fn generate_tiles_covers_canvas_exactly() {
    let tiles = generate_tiles(256, 256, 64);
    assert_eq!(tiles.len(), 16);
    let total_area: u64 = tiles.iter().map(|t| t.area()).sum();
    assert_eq!(total_area, 256 * 256);
}

#[test]
fn generate_tiles_handles_non_divisible_sizes() {
    let tiles = generate_tiles(100, 100, 64);
    assert_eq!(tiles.len(), 4);
    let has_partial_width = tiles.iter().any(|t| t.width == 36);
    let has_partial_height = tiles.iter().any(|t| t.height == 36);
    assert!(has_partial_width);
    assert!(has_partial_height);
}

#[test]
fn generate_tiles_center_out_ordering() {
    let tiles = generate_tiles(256, 256, 64);
    let first = &tiles[0];
    let first_center_x = first.x as f64 + first.width as f64 / 2.0;
    let first_center_y = first.y as f64 + first.height as f64 / 2.0;
    let dist_to_center =
        ((first_center_x - 128.0).powi(2) + (first_center_y - 128.0).powi(2)).sqrt();
    assert!(dist_to_center < 64.0, "First tile should be near center");
    let last = &tiles[tiles.len() - 1];
    let last_center_x = last.x as f64 + last.width as f64 / 2.0;
    let last_center_y = last.y as f64 + last.height as f64 / 2.0;
    let last_dist = ((last_center_x - 128.0).powi(2) + (last_center_y - 128.0).powi(2)).sqrt();
    assert!(last_dist > dist_to_center, "Last tile should be farther from center");
}

#[test]
fn generate_tiles_no_overlap() {
    let tiles = generate_tiles(256, 256, 64);
    for (i, a) in tiles.iter().enumerate() {
        for (j, b) in tiles.iter().enumerate() {
            if i == j {
                continue;
            }
            let x_overlap = a.x < b.x + b.width && a.x + a.width > b.x;
            let y_overlap = a.y < b.y + b.height && a.y + a.height > b.y;
            assert!(!(x_overlap && y_overlap), "Tiles {} and {} overlap", i, j);
        }
    }
}

#[test]
fn center_four_tiles_come_first_in_row_major_order() {
    let tiles = generate_tiles(256, 256, 64);
    assert_eq!(tiles[0], PixelRect::new(64, 64, 64, 64));
    assert_eq!(tiles[1], PixelRect::new(128, 64, 64, 64));
    assert_eq!(tiles[2], PixelRect::new(64, 128, 64, 64));
    assert_eq!(tiles[3], PixelRect::new(128, 128, 64, 64));
    assert_eq!(tiles[15], PixelRect::new(192, 192, 64, 64));
}

#[test]
fn every_pixel_in_exactly_one_tile_for_odd_canvas() {
    let (w, h) = (37u32, 23u32);
    let tiles = generate_tiles(w, h, 8);
    assert_eq!(tiles.len(), 5 * 3);
    for py in 0..h {
        for px in 0..w {
            let n = tiles
                .iter()
                .filter(|t| t.x <= px && px < t.x + t.width && t.y <= py && py < t.y + t.height)
                .count();
            assert_eq!(n, 1);
        }
    }
    for pair in tiles.windows(2) {
        assert!(is_tile_before(pair[0], pair[1], w, h));
        assert!(center_distance(pair[0], w, h) <= center_distance(pair[1], w, h));
    }
}

#[test]
fn empty_canvas_has_no_tiles() {
    assert!(generate_tiles(0, 100, 64).is_empty());
    assert!(generate_tiles(100, 0, 64).is_empty());
}

#[test]
fn center_distance_is_four_times_squared_distance() {
    // Tile center (32, 32), canvas center (128, 128): 4 * (96^2 + 96^2).
    assert_eq!(center_distance(PixelRect::new(0, 0, 64, 64), 256, 256), 4 * (96 * 96 + 96 * 96));
}
