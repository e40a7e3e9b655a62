use vstd::prelude::*;
use crate::image::traits::pixel::Pixel;

verus! {

/// A width x height grid of pixels, the storage the rasterizer draws
/// into. The rasterizer only ever goes through this interface, never
/// through a concrete layout.
pub trait PixelBuffer: Sized {
    type PixelType: Pixel;

    /// The buffer's internal consistency: dimensions match the storage.
    spec fn wf(&self) -> bool;

    spec fn width_spec(&self) -> int;

    spec fn height_spec(&self) -> int;

    /// The pixel stored at (x, y).
    spec fn pixel_at(&self, x: int, y: int) -> Self::PixelType;

    /// The raw storage bytes, in the buffer's own layout.
    spec fn bytes_spec(&self) -> Seq<u8>;

    fn new(width: u16, height: u16, init_color: &Self::PixelType) -> (r: Self)
        requires
            3 * (width * height) <= usize::MAX,
        ensures
            r.wf(),
            r.width_spec() == width,
            r.height_spec() == height,
            forall|x: int, y: int|
                0 <= x < width && 0 <= y < height ==> r.pixel_at(x, y) == *init_color,
    ;

    fn width(&self) -> (r: u16)
        ensures
            r == self.width_spec(),
    ;

    fn height(&self) -> (r: u16)
        ensures
            r == self.height_spec(),
    ;

    /// Writes one pixel; fails, changing nothing, exactly when (x, y) is
    /// outside the buffer.
    fn set(&mut self, x: u16, y: u16, pixel: &Self::PixelType) -> (r: Result<(), ()>)
        requires
            old(self).wf(),
        ensures
            final(self).wf(),
            final(self).width_spec() == old(self).width_spec(),
            final(self).height_spec() == old(self).height_spec(),
            r is Ok <==> x < old(self).width_spec() && y < old(self).height_spec(),
            r is Ok ==> final(self).pixel_at(x as int, y as int) == *pixel,
            r is Ok ==> forall|x2: int, y2: int|
                0 <= x2 < final(self).width_spec() && 0 <= y2 < final(self).height_spec()
                    && !(x2 == x && y2 == y)
                    ==> final(self).pixel_at(x2, y2) == old(self).pixel_at(x2, y2),
            r is Err ==> *final(self) == *old(self),
    ;

    /// Reads one pixel; empty exactly when (x, y) is outside the buffer.
    fn get(&self, x: u16, y: u16) -> (r: Option<Self::PixelType>)
        requires
            self.wf(),
        ensures
            match r {
                Some(p) => x < self.width_spec() && y < self.height_spec()
                    && p == self.pixel_at(x as int, y as int),
                None => !(x < self.width_spec() && y < self.height_spec()),
            },
    ;

    /// Gives up the raw storage.
    fn unpack(self) -> (r: Vec<u8>)
        ensures
            r@ == self.bytes_spec(),
    ;

    fn as_bytes(&self) -> (r: &[u8])
        ensures
            r@ == self.bytes_spec(),
    ;
}

} // verus!
