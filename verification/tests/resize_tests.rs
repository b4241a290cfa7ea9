use ascii_render::raster::{Raster, Rgba};
use ascii_render::resize::{fit_to_columns, target_width_for};

fn solid(width: u32, height: u32, px: [u8; 4]) -> Raster {
    let mut data = Vec::new();
    for _ in 0..(width * height) {
        data.extend_from_slice(&px);
    }
    Raster::new(width, height, data).unwrap()
}

fn quadrants(side: u32) -> Raster {
    let mut data = Vec::new();
    for y in 0..side {
        for x in 0..side {
            let px: [u8; 4] = match (x < side / 2, y < side / 2) {
                (true, true) => [255, 0, 0, 255],
                (false, true) => [0, 255, 0, 255],
                (true, false) => [0, 0, 255, 255],
                (false, false) => [255, 255, 255, 0],
            };
            data.extend_from_slice(&px);
        }
    }
    Raster::new(side, side, data).unwrap()
}

#[test]
fn target_width_is_half_the_columns_at_most_the_image() {
    assert_eq!(target_width_for(20, 4), 4);
    assert_eq!(target_width_for(20, 10), 10);
    assert_eq!(target_width_for(20, 11), 10);
    assert_eq!(target_width_for(21, 640), 10);
    assert_eq!(target_width_for(1, 640), 0);
    assert_eq!(target_width_for(0, 640), 0);
    assert_eq!(target_width_for(80, 0), 0);
    assert_eq!(target_width_for(u16::MAX, u32::MAX), 32767);
}

#[test]
fn narrow_image_comes_back_unchanged() {
    let img = quadrants(4);
    let same = fit_to_columns(img.clone(), 8);
    assert_eq!(same, img);
    let same = fit_to_columns(img.clone(), 9);
    assert_eq!(same, img);
    let same = fit_to_columns(img.clone(), 200);
    assert_eq!(same, img);
}

#[test]
fn wide_image_is_scaled_down_to_the_target_width() {
    let img = quadrants(4);
    let out = fit_to_columns(img.clone(), 4);
    assert_eq!(out.width(), 2);
    assert_eq!(out.height(), 2);
    assert_eq!(out.data().len(), 16);
    assert_eq!(out.pixel(0, 0), Rgba { r: 255, g: 0, b: 0, a: 255 });
    assert_eq!(out.pixel(1, 0), Rgba { r: 0, g: 255, b: 0, a: 255 });
    assert_eq!(out.pixel(0, 1), Rgba { r: 0, g: 0, b: 255, a: 255 });
    assert_eq!(out.pixel(1, 1), Rgba { r: 255, g: 255, b: 255, a: 0 });
    assert_ne!(out, img);
}

#[test]
fn scaling_keeps_the_proportions() {
    let out = fit_to_columns(solid(8, 4, [9, 9, 9, 255]), 8);
    assert_eq!((out.width(), out.height()), (4, 2));
    let out = fit_to_columns(solid(6, 12, [9, 9, 9, 255]), 8);
    assert_eq!((out.width(), out.height()), (2, 4));
    let out = fit_to_columns(solid(100, 1, [9, 9, 9, 255]), 20);
    assert_eq!((out.width(), out.height()), (10, 1));
}

#[test]
fn scaling_never_widens() {
    for columns in 0..40u16 {
        for width in 0..24u32 {
            let img = solid(width, 3, [1, 2, 3, 4]);
            let out = fit_to_columns(img, columns);
            assert!(out.width() <= width);
            assert!(out.width() <= target_width_for(columns, width));
            assert_eq!(out.data().len() as u32, 4 * out.width() * out.height());
        }
    }
}

#[test]
fn no_columns_leave_no_pixels() {
    let out = fit_to_columns(solid(5, 5, [1, 2, 3, 4]), 1);
    assert_eq!((out.width(), out.height()), (0, 0));
    assert!(out.data().is_empty());
    let out = fit_to_columns(solid(5, 5, [1, 2, 3, 4]), 0);
    assert_eq!((out.width(), out.height()), (0, 0));
}

#[test]
fn wide_image_without_rows_stays_without_rows() {
    let out = fit_to_columns(Raster::without_rows(50), 20);
    assert_eq!((out.width(), out.height()), (10, 0));
    assert!(out.data().is_empty());
}

#[test]
fn solid_black_image_fits_a_terminal_of_twenty_columns() {
    let img = solid(4, 2, [0, 0, 0, 255]);
    assert_eq!(target_width_for(20, img.width()), 4);
    let out = fit_to_columns(img.clone(), 20);
    assert_eq!(out, img);
}

#[test]
fn scaled_image_fills_the_target_square_one_way() {
    for width in 1..28u32 {
        for height in 1..28u32 {
            for columns in [2u16, 3, 4, 7, 10, 16, 25, 40, 54] {
                let target = target_width_for(columns, width);
                let out = fit_to_columns(solid(width, height, [5, 6, 7, 8]), columns);
                if width > target {
                    assert!(1 <= out.width() && out.width() <= target);
                    assert!(1 <= out.height() && out.height() <= target);
                    assert!(out.width() == target || out.height() == target);
                    assert_eq!(out.pixel(0, 0), Rgba { r: 5, g: 6, b: 7, a: 8 });
                } else {
                    assert_eq!((out.width(), out.height()), (width, height));
                }
            }
        }
    }
}

#[test]
fn scaling_takes_the_nearest_pixel() {
    let mut data = Vec::new();
    for x in 0..6u8 {
        data.extend_from_slice(&[x, 10 * x, 100, 255]);
    }
    let out = fit_to_columns(Raster::new(6, 1, data).unwrap(), 6);
    assert_eq!((out.width(), out.height()), (3, 1));
    assert_eq!(out.pixel(0, 0), Rgba { r: 1, g: 10, b: 100, a: 255 });
    assert_eq!(out.pixel(1, 0), Rgba { r: 3, g: 30, b: 100, a: 255 });
    assert_eq!(out.pixel(2, 0), Rgba { r: 5, g: 50, b: 100, a: 255 });
}
