//! Decoded images as plain values: a width, a height and the pixels as
//! bytes, four to a pixel in the order red, green, blue, alpha, row by row
//! from the top left.

use vstd::arithmetic::div_mod::{
    lemma_div_multiples_vanish, lemma_div_pos_is_pos, lemma_multiply_divide_lt,
};
use vstd::prelude::*;
use vstd::set_lib::{lemma_int_range, set_int_range};

verus! {

/// One pixel: three colour channels and its opacity.
#[derive(Clone, Copy, Debug, PartialEq, Eq, Structural)]
pub struct Rgba {
    pub r: u8,
    pub g: u8,
    pub b: u8,
    pub a: u8,
}

/// What a [`Raster`] holds, as mathematical values.
pub struct RasterView {
    pub width: u32,
    pub height: u32,
    pub data: Seq<u8>,
}

impl RasterView {
    /// Number of pixels.
    pub open spec fn pixel_count(self) -> int {
        self.width as int * self.height as int
    }

    /// The bytes are exactly those of `width * height` pixels.
    pub open spec fn wf(self) -> bool {
        self.data.len() == 4 * self.pixel_count()
    }

    /// Where the pixel in column `x` of row `y` starts among the bytes.
    pub open spec fn offset(self, x: int, y: int) -> int {
        4 * (y * self.width as int + x)
    }

    /// The pixel in column `x` of row `y`.
    pub open spec fn pixel(self, x: int, y: int) -> Rgba {
        let at = self.offset(x, y);
        Rgba { r: self.data[at], g: self.data[at + 1], b: self.data[at + 2], a: self.data[at + 3] }
    }

    /// The image has no pixel at all.
    pub open spec fn is_empty(self) -> bool {
        self.pixel_count() == 0
    }

    /// The row coordinate of the `i`-th pixel of the scan, which visits
    /// the pixels row by row, each row from the left.
    pub open spec fn scan_row(self, i: int) -> int {
        i / self.width as int
    }

    /// The row coordinates that occur in the scan.
    pub open spec fn scanned_rows(self) -> Set<int> {
        Set::new(
            |y: int| exists|i: int| 0 <= i < self.pixel_count() && #[trigger] self.scan_row(i) == y,
        )
    }
}

/// The scan of an image meets exactly the rows from 0 up to the height,
/// unless the image has no pixel, and then it meets none.
pub proof fn lemma_scanned_rows(v: RasterView)
    ensures
        v.scanned_rows().finite(),
        v.is_empty() ==> v.scanned_rows().len() == 0,
        !v.is_empty() ==> v.scanned_rows().len() == v.height,
        v.is_empty() <==> v.width == 0 || v.height == 0,
{
    let w = v.width as int;
    let h = v.height as int;
    assert(w * h == 0 <==> w == 0 || h == 0) by (nonlinear_arith);
    if v.is_empty() {
        assert(v.scanned_rows() =~= Set::<int>::empty());
    } else {
        assert forall|y: int| 0 <= y < h implies v.scanned_rows().contains(y) by {
            lemma_div_multiples_vanish(y, w);
            assert(0 <= w * y < w * h) by (nonlinear_arith)
                requires
                    0 <= y < h,
                    0 < w,
            ;
            assert(v.scan_row(w * y) == y);
        }
        assert forall|y: int| v.scanned_rows().contains(y) implies 0 <= y < h by {
            let i = choose|i: int| 0 <= i < v.pixel_count() && #[trigger] v.scan_row(i) == y;
            lemma_div_pos_is_pos(i, w);
            lemma_multiply_divide_lt(i, w, h);
        }
        assert(v.scanned_rows() =~= set_int_range(0, h));
        lemma_int_range(0, h);
    }
}

/// Every pixel of a well-formed image lies wholly inside its bytes.
pub proof fn lemma_pixel_in_bounds(v: RasterView, x: int, y: int)
    requires
        v.wf(),
        0 <= x < v.width,
        0 <= y < v.height,
    ensures
        0 <= v.offset(x, y),
        v.offset(x, y) + 4 <= v.data.len(),
        0 <= y * v.width as int + x < v.pixel_count(),
{
    let w = v.width as int;
    let h = v.height as int;
    assert(0 <= y * w && y * w + w <= h * w && h * w == w * h) by (nonlinear_arith)
        requires
            0 <= y < h,
            0 <= w,
    ;
}

/// An image of `width * height` pixels of four bytes each.
#[derive(Debug, PartialEq, Eq)]
pub struct Raster {
    pub(crate) width: u32,
    pub(crate) height: u32,
    pub(crate) data: Vec<u8>,
}

impl View for Raster {
    type V = RasterView;

    closed spec fn view(&self) -> RasterView {
        RasterView { width: self.width, height: self.height, data: self.data@ }
    }
}

impl Clone for Raster {
    fn clone(&self) -> (copy: Self)
        ensures
            copy@ == self@,
    {
        proof {
            use_type_invariant(self);
        }
        let data = self.data.clone();
        Raster { width: self.width, height: self.height, data }
    }
}

impl Raster {
    #[verifier::type_invariant]
    pub open spec fn inv(self) -> bool {
        self@.wf()
    }

    /// An image of the given size over the given bytes; `None` unless
    /// there are exactly four bytes for each of its pixels.
    pub fn new(width: u32, height: u32, data: Vec<u8>) -> (made: Option<Raster>)
        ensures
            made is Some <==> data@.len() == 4 * (width as int * height as int),
            made matches Some(img) ==> img@ == (RasterView { width, height, data: data@ }),
    {
        assert(0 <= width as int * height as int <= 0xffff_ffff * 0xffff_ffff) by (nonlinear_arith)
            requires
                0 <= width <= 0xffff_ffff,
                0 <= height <= 0xffff_ffff,
        ;
        let pixels: u128 = width as u128 * height as u128;
        if data.len() as u128 == 4 * pixels {
            Some(Raster { width, height, data })
        } else {
            None
        }
    }

    /// The image of the given width that has no rows, and so no pixels.
    pub fn without_rows(width: u32) -> (img: Raster)
        ensures
            img@ == (RasterView { width, height: 0, data: Seq::empty() }),
            img@.wf(),
    {
        Raster { width, height: 0, data: Vec::new() }
    }

    /// Number of columns.
    pub fn width(&self) -> (w: u32)
        ensures
            w == self@.width,
    {
        self.width
    }

    /// Number of rows.
    pub fn height(&self) -> (h: u32)
        ensures
            h == self@.height,
    {
        self.height
    }

    /// The pixels as bytes, and the fact that they fill the image exactly.
    pub fn data(&self) -> (bytes: &Vec<u8>)
        ensures
            bytes@ == self@.data,
            self@.wf(),
    {
        proof {
            use_type_invariant(self);
        }
        &self.data
    }

    /// The pixel in column `x` of row `y`.
    pub fn pixel(&self, x: u32, y: u32) -> (px: Rgba)
        requires
            x < self@.width,
            y < self@.height,
        ensures
            px == self@.pixel(x as int, y as int),
    {
        // The length of the data, a `usize`, bounds every offset into it.
        let len = self.data.len();
        proof {
            use_type_invariant(self);
            lemma_pixel_in_bounds(self@, x as int, y as int);
            assert(self@.offset(x as int, y as int) + 4 <= len);
        }
        let at: usize = 4 * (y as usize * self.width as usize + x as usize);
        Rgba { r: self.data[at], g: self.data[at + 1], b: self.data[at + 2], a: self.data[at + 3] }
    }
}

} // verus!
