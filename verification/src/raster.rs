//! Raster images: a row-major grid of RGB pixels over one flat sample buffer.

use vstd::prelude::*;
use crate::pixel::Pixel;
use crate::resize::{resize_fits, resize_samples, resized_view};

verus! {

/// What a raster image holds: its dimensions and its samples.
pub struct RasterView {
    pub width: nat,
    pub height: nat,
    /// The samples, row by row from the top-left corner, three per pixel in
    /// the order red, green, blue.
    pub data: Seq<u8>,
}

impl RasterView {
    /// The buffer holds exactly one RGB triple for each position, and no
    /// more bytes than one allocation can.
    pub open spec fn wf(self) -> bool {
        &&& self.width <= u32::MAX
        &&& self.height <= u32::MAX
        &&& self.data.len() == 3 * self.width * self.height
        &&& self.data.len() <= isize::MAX
    }

    /// Whether both rasters have the same width and the same height.
    pub open spec fn same_size(self, other: RasterView) -> bool {
        self.width == other.width && self.height == other.height
    }

    /// Whether `(x, y)` is a position of the grid.
    pub open spec fn contains(self, x: int, y: int) -> bool {
        0 <= x < self.width && 0 <= y < self.height
    }

    /// Where the samples of the pixel at `(x, y)` begin.
    pub open spec fn offset(self, x: int, y: int) -> int {
        3 * (y * self.width + x)
    }

    /// The pixel at column `x` of row `y`.
    pub open spec fn pixel(self, x: int, y: int) -> Pixel {
        let k = self.offset(x, y);
        Pixel { r: self.data[k], g: self.data[k + 1], b: self.data[k + 2] }
    }

    /// The same raster with the pixel at `(x, y)` replaced by `p`.
    pub open spec fn with_pixel(self, x: int, y: int, p: Pixel) -> RasterView {
        let k = self.offset(x, y);
        RasterView {
            width: self.width,
            height: self.height,
            data: self.data.update(k, p.r).update(k + 1, p.g).update(k + 2, p.b),
        }
    }

    /// The all-black raster of the given dimensions.
    pub open spec fn blank(width: nat, height: nat) -> RasterView {
        RasterView { width, height, data: Seq::new(3 * width * height, |k: int| 0u8) }
    }

    /// The samples of a position of the grid lie inside the buffer, and those
    /// of positions further along in row-major order lie behind them.
    pub proof fn lemma_offset_bounds(self, x: int, y: int)
        requires
            self.wf(),
            self.contains(x, y),
        ensures
            0 <= self.offset(x, y),
            self.offset(x, y) + 3 <= self.data.len(),
            self.offset(x, y) + 3 <= 3 * self.width * (y + 1),
            3 * self.width * (y + 1) <= self.data.len(),
    {
        let w = self.width as int;
        let h = self.height as int;
        assert({
            &&& 0 <= y * w
            &&& y * w + w == (y + 1) * w
            &&& (y + 1) * w <= h * w
        }) by (nonlinear_arith)
            requires
                0 <= y < h,
                0 <= w,
        ;
        assert({
            &&& 3 * w * (y + 1) == 3 * ((y + 1) * w)
            &&& 3 * w * h == 3 * (h * w)
        }) by (nonlinear_arith);
    }
}

/// An RGB raster image that owns its samples.
#[derive(Debug)]
pub struct RasterImage {
    width: u32,
    height: u32,
    data: Vec<u8>,
}

impl View for RasterImage {
    type V = RasterView;

    closed spec fn view(&self) -> RasterView {
        RasterView { width: self.width as nat, height: self.height as nat, data: self.data@ }
    }
}

impl RasterImage {
    #[verifier::type_invariant]
    spec fn well_formed(&self) -> bool {
        self@.wf()
    }

    /// An all-black image of the given dimensions, which must not ask for
    /// more than one allocation can hold.
    pub fn new(width: u32, height: u32) -> (img: RasterImage)
        requires
            3 * width * height <= isize::MAX,
        ensures
            img@ == RasterView::blank(width as nat, height as nat),
            img@.wf(),
    {
        assert(3 * (width * height) == 3 * width * height) by (nonlinear_arith);
        let len = 3 * (width as usize * height as usize);
        let data = vec![0u8; len];
        assert(data@ =~= RasterView::blank(width as nat, height as nat).data);
        RasterImage { width, height, data }
    }

    /// Wraps a sample buffer laid out row by row, three samples per pixel.
    /// The buffer is accepted when it holds exactly `3 * width * height`
    /// samples. No buffer in memory is longer than `isize::MAX`.
    pub fn from_raw(width: u32, height: u32, data: Vec<u8>) -> (img: Option<RasterImage>)
        ensures
            img is Some <==> data@.len() == 3 * width * height && data@.len() <= isize::MAX,
            img matches Some(i) ==> i@.wf() && i@ == (RasterView {
                width: width as nat,
                height: height as nat,
                data: data@,
            }),
    {
        assert({
            &&& width as u128 * height as u128 <= 0xFFFF_FFFFu128 * 0xFFFF_FFFFu128
            &&& 3 * (width as u128 * height as u128) == 3 * width * height
        }) by (nonlinear_arith)
            requires
                width <= 0xFFFF_FFFFu128,
                height <= 0xFFFF_FFFFu128,
        ;
        let needed: u128 = 3 * (width as u128 * height as u128);
        if data.len() as u128 == needed && needed <= isize::MAX as u128 {
            Some(RasterImage { width, height, data })
        } else {
            None
        }
    }

    /// Gives the sample buffer back.
    pub fn into_raw(self) -> (data: Vec<u8>)
        ensures
            data@ == self@.data,
    {
        self.data
    }

    /// The number of columns.
    pub fn width(&self) -> (w: u32)
        ensures
            w == self@.width,
            self@.wf(),
    {
        proof {
            use_type_invariant(self);
        }
        self.width
    }

    /// The number of rows.
    pub fn height(&self) -> (h: u32)
        ensures
            h == self@.height,
            self@.wf(),
    {
        proof {
            use_type_invariant(self);
        }
        self.height
    }

    /// Width and height, in this order.
    pub fn dimensions(&self) -> (dims: (u32, u32))
        ensures
            dims.0 == self@.width,
            dims.1 == self@.height,
            self@.wf(),
    {
        proof {
            use_type_invariant(self);
        }
        (self.width, self.height)
    }

    /// Whether `resize_nearest` can make the buffers it needs to bring this
    /// image to `width` x `height`.
    pub fn can_resize_to(&self, width: u32, height: u32) -> (fits: bool)
        ensures
            fits == resize_fits(self@.width, self@.height, width as nat, height as nat),
    {
        let limit = isize::MAX as u128;
        let (w, h) = (self.width as u128, self.height as u128);
        let (nw, nh) = (width as u128, height as u128);
        assert({
            &&& nw * nh <= 0xFFFF_FFFFu128 * 0xFFFF_FFFFu128
            &&& w * nh <= 0xFFFF_FFFFu128 * 0xFFFF_FFFFu128
            &&& 3 * (nw * nh) == 3 * nw * nh
            &&& 16 * (w * nh) == 16 * w * nh
        }) by (nonlinear_arith)
            requires
                w <= 0xFFFF_FFFFu128,
                nw <= 0xFFFF_FFFFu128,
                nh <= 0xFFFF_FFFFu128,
        ;
        let widths_fit = 3 * w <= usize::MAX as u128 && 3 * nw <= usize::MAX as u128;
        let sampled_anew = w != 0 && h != 0 && (w != nw || h != nh);
        widths_fit && 3 * (nw * nh) <= limit && (!sampled_anew || 16 * (w * nh) <= limit)
    }

    /// This image brought to `width` x `height` by nearest-neighbour
    /// sampling. An image that already has these dimensions comes back
    /// unchanged.
    pub fn resize_nearest(&self, width: u32, height: u32) -> (out: RasterImage)
        requires
            resize_fits(self@.width, self@.height, width as nat, height as nat),
        ensures
            out@ == resized_view(self@, width as nat, height as nat),
            out@.wf(),
            self@.width == width && self@.height == height ==> out@ == self@,
    {
        proof {
            use_type_invariant(self);
        }
        let data = resize_samples(self.width, self.height, &self.data, width, height);
        assert(data@.len() == data.len());
        RasterImage { width, height, data }
    }

    fn index_of(&self, x: u32, y: u32) -> (k: usize)
        requires
            self@.contains(x as int, y as int),
        ensures
            k == self@.offset(x as int, y as int),
            k + 3 <= self.data.len(),
    {
        proof {
            use_type_invariant(self);
            self@.lemma_offset_bounds(x as int, y as int);
            assert(0 <= y * self.width) by (nonlinear_arith);
            assert(self.data@.len() == self.data.len());
        }
        3 * (y as usize * self.width as usize + x as usize)
    }

    /// The pixel at column `x` of row `y`.
    pub fn get_pixel(&self, x: u32, y: u32) -> (p: Pixel)
        requires
            self@.contains(x as int, y as int),
        ensures
            p == self@.pixel(x as int, y as int),
    {
        let k = self.index_of(x, y);
        Pixel { r: self.data[k], g: self.data[k + 1], b: self.data[k + 2] }
    }

    /// Replaces the pixel at column `x` of row `y`.
    pub fn put_pixel(&mut self, x: u32, y: u32, p: Pixel)
        requires
            old(self)@.contains(x as int, y as int),
        ensures
            final(self)@ == old(self)@.with_pixel(x as int, y as int, p),
            final(self)@.wf(),
    {
        proof {
            use_type_invariant(&*self);
        }
        let k = self.index_of(x, y);
        self.data[k] = p.r;
        self.data[k + 1] = p.g;
        self.data[k + 2] = p.b;
    }
}

} // verus!
