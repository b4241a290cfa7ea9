//! Fitting an image to the width of a terminal: images that are too wide
//! are scaled down by nearest-neighbour sampling, and nothing is ever
//! scaled up.

use vstd::prelude::*;
use crate::raster::{Raster, RasterView};

verus! {

/// The image that `image::DynamicImage::resize` returns with the filter
/// `FilterType::Nearest` for an RGBA image of `width * height` pixels over
/// `data` and the bounds `nwidth` and `nheight`: its width, its height and
/// its bytes.
pub uninterp spec fn nearest_fit(width: u32, height: u32, data: Seq<u8>, nwidth: u32, nheight: u32) -> (u32, u32, Seq<u8>);

/// Calls `image::DynamicImage::resize` with `FilterType::Nearest` on an
/// RGBA image that has at least one pixel, with bounds of at least one
/// pixel each way.
///
/// Trusted: the result is the one that [`nearest_fit`] names; it is again
/// an image with four bytes for each pixel; and, as the method documents,
/// it is of the largest size that fits within the bounds given, so that it
/// has a pixel, exceeds neither bound, and meets one of them.
#[verifier::external_body]
fn resize_nearest(src: &Raster, nwidth: u32, nheight: u32) -> (out: Raster)
    requires
        src@.width >= 1,
        src@.height >= 1,
        nwidth >= 1,
        nheight >= 1,
    ensures
        (out@.width, out@.height, out@.data) == nearest_fit(
            src@.width,
            src@.height,
            src@.data,
            nwidth,
            nheight,
        ),
        out@.wf(),
        1 <= out@.width <= nwidth,
        1 <= out@.height <= nheight,
        out@.width == nwidth || out@.height == nheight,
{
    let buffer = image::RgbaImage::from_raw(src.width, src.height, src.data.clone()).unwrap();
    let scaled = image::DynamicImage::ImageRgba8(buffer)
        .resize(nwidth, nheight, image::imageops::FilterType::Nearest)
        .into_rgba8();
    Raster { width: scaled.width(), height: scaled.height(), data: scaled.into_raw() }
}

/// The widest image, in pixels, that a terminal of `columns` columns
/// shows: each pixel takes two columns, and no image is widened.
pub open spec fn target_width(columns: u16, image_width: u32) -> u32 {
    if (columns / 2) as u32 <= image_width {
        (columns / 2) as u32
    } else {
        image_width
    }
}

/// What fitting an image to a terminal of `columns` columns gives.
///
/// An image no wider than the target width is kept as it is. A wider one
/// is scaled to fit a square of the target width, by [`nearest_fit`]; where
/// that square or the image has no pixel to show, what is left is the
/// image of the target width without rows.
pub open spec fn fitted(img: RasterView, columns: u16) -> RasterView {
    let target = target_width(columns, img.width);
    if img.width <= target {
        img
    } else if target == 0 || img.height == 0 {
        RasterView { width: target, height: 0, data: Seq::empty() }
    } else {
        let scaled = nearest_fit(img.width, img.height, img.data, target, target);
        RasterView { width: scaled.0, height: scaled.1, data: scaled.2 }
    }
}

/// Computes [`target_width`].
pub fn target_width_for(columns: u16, image_width: u32) -> (target: u32)
    ensures
        target == target_width(columns, image_width),
        target <= image_width,
        target == columns / 2 || target == image_width,
{
    let half: u32 = (columns / 2) as u32;
    if half <= image_width {
        half
    } else {
        image_width
    }
}

/// An image is scaled where it is wider than the target width, and the
/// target width and the image leave something to show.
pub open spec fn is_scaled(img: RasterView, columns: u16) -> bool {
    img.width > target_width(columns, img.width) && target_width(columns, img.width) >= 1
        && img.height >= 1
}

/// Fits an image to a terminal of `columns` columns.
///
/// The result is never wider than the image nor than the target width,
/// and an image that already fits comes back unchanged, pixel for pixel.
/// A scaled image fills the square of the target width in one direction
/// and stays within it in the other.
pub fn fit_to_columns(img: Raster, columns: u16) -> (out: Raster)
    ensures
        out@ == fitted(img@, columns),
        out@.wf(),
        out@.width <= img@.width,
        out@.width <= target_width(columns, img@.width),
        img@.width <= columns / 2 ==> out@ == img@,
        is_scaled(img@, columns) ==> {
            let target = target_width(columns, img@.width);
            &&& 1 <= out@.width <= target
            &&& 1 <= out@.height <= target
            &&& out@.width == target || out@.height == target
        },
{
    proof {
        use_type_invariant(&img);
    }
    let target = target_width_for(columns, img.width());
    if img.width() <= target {
        img
    } else if target == 0 || img.height() == 0 {
        Raster::without_rows(target)
    } else {
        resize_nearest(&img, target, target)
    }
}

} // verus!
