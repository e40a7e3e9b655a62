use vstd::prelude::*;
use crate::image::bgr_pixel::BGRPixel;
use crate::image::traits::pixel_buffer::PixelBuffer;
use crate::numeric::{lemma_row_major_index_bounds, lemma_row_major_index_injective};

verus! {

/// Pixel storage as one flat byte vector, three bytes per pixel in blue,
/// green, red order, rows bottom to top as TGA keeps them.
#[derive(Debug)]
pub struct BGRPixelBuffer {
    pub width: u16,
    pub height: u16,
    data: Vec<u8>,
}

impl BGRPixelBuffer {
    /// Byte offset of the pixel at (x, y).
    pub closed spec fn index_of(&self, x: int, y: int) -> int {
        3 * (y * self.width + x)
    }

    fn coords_to_index(&self, x: u16, y: u16) -> (r: usize)
        requires
            self.wf(),
            x < self.width_spec(),
            y < self.height_spec(),
        ensures
            r == self.index_of(x as int, y as int),
            r + 2 < self.bytes_spec().len(),
    {
        proof {
            lemma_row_major_index_bounds(
                self.width as int, self.height as int, x as int, y as int);
        }
        let buffer_len: usize = self.data.len();
        let r: usize = x as usize * 3usize + y as usize * self.width as usize * 3usize;
        assert(r + 2 < buffer_len);
        r
    }

    /// A borrowed view of the raw storage.
    pub fn get_data_ref(&self) -> (r: &Vec<u8>)
        ensures
            r@ == self.bytes_spec(),
    {
        &self.data
    }

    /// A mutable borrow of the raw storage. Writing through it can of
    /// course break the buffer's layout; the dimensions stay as they are.
    pub fn get_data_ref_mut(&mut self) -> (r: &mut Vec<u8>)
        ensures
            r@ == old(self).bytes_spec(),
            final(self).bytes_spec() == final(r)@,
            final(self).width_spec() == old(self).width_spec(),
            final(self).height_spec() == old(self).height_spec(),
    {
        &mut self.data
    }

    /// A copy of the raw storage.
    pub fn clone_buffer(&self) -> (r: Vec<u8>)
        ensures
            r@ == self.bytes_spec(),
    {
        let mut copy: Vec<u8> = Vec::new();
        let n: usize = self.data.len();
        let mut i: usize = 0;
        while i < n
            invariant
                i <= n,
                n == self.data.len(),
                copy.len() == i,
                forall|j: int| 0 <= j < i ==> copy[j] == self.data[j],
            decreases n - i,
        {
            copy.push(self.data[i]);
            i = i + 1;
        }
        proof {
            assert(copy@ =~= self.data@);
        }
        copy
    }
}

impl PixelBuffer for BGRPixelBuffer {
    type PixelType = BGRPixel;

    closed spec fn wf(&self) -> bool {
        self.data.len() == 3 * (self.width * self.height)
    }

    closed spec fn width_spec(&self) -> int {
        self.width as int
    }

    closed spec fn height_spec(&self) -> int {
        self.height as int
    }

    closed spec fn pixel_at(&self, x: int, y: int) -> BGRPixel {
        BGRPixel {
            b: self.data[self.index_of(x, y)],
            g: self.data[self.index_of(x, y) + 1],
            r: self.data[self.index_of(x, y) + 2],
        }
    }

    closed spec fn bytes_spec(&self) -> Seq<u8> {
        self.data@
    }

    fn new(width: u16, height: u16, init_color: &BGRPixel) -> (r: Self)
    {
        proof {
            crate::numeric::lemma_mul_fits(width as int, height as int, 0xffff, 0xffff);
        }
        let count: usize = (width as usize) * (height as usize);
        let mut data: Vec<u8> = Vec::new();
        let mut i: usize = 0;
        while i < count
            invariant
                i <= count,
                count == width * height,
                3 * count <= usize::MAX,
                data.len() == 3 * i,
                forall|j: int| 0 <= j < i ==> {
                    &&& #[trigger] data[3 * j] == init_color.b
                    &&& data[3 * j + 1] == init_color.g
                    &&& data[3 * j + 2] == init_color.r
                },
            decreases count - i,
        {
            let ghost data0 = data@;
            data.push(init_color.b);
            data.push(init_color.g);
            data.push(init_color.r);
            proof {
                assert forall|j: int| 0 <= j < i + 1 implies {
                    &&& #[trigger] data[3 * j] == init_color.b
                    &&& data[3 * j + 1] == init_color.g
                    &&& data[3 * j + 2] == init_color.r
                } by {
                    if j < i {
                        assert(data0[3 * j] == init_color.b);
                        assert(data0[3 * j + 1] == init_color.g);
                        assert(data0[3 * j + 2] == init_color.r);
                    }
                    assert(data@ == data0.push(init_color.b).push(init_color.g).push(
                        init_color.r));
                }
            }
            i = i + 1;
        }
        let r = BGRPixelBuffer { width, height, data };
        proof {
            assert forall|x: int, y: int| 0 <= x < width && 0 <= y < height
                implies #[trigger] r.pixel_at(x, y) == *init_color by {
                lemma_row_major_index_bounds(width as int, height as int, x, y);
            }
        }
        r
    }

    fn width(&self) -> (r: u16) {
        self.width
    }

    fn height(&self) -> (r: u16) {
        self.height
    }

    fn set(&mut self, x: u16, y: u16, pixel: &BGRPixel) -> (r: Result<(), ()>) {
        if x >= self.width || y >= self.height {
            Err(())
        } else {
            let start: usize = self.coords_to_index(x, y);
            self.data.set(start, pixel.b);
            self.data.set(start + 1, pixel.g);
            self.data.set(start + 2, pixel.r);
            proof {
                assert forall|x2: int, y2: int|
                    0 <= x2 < self.width_spec() && 0 <= y2 < self.height_spec()
                        && !(x2 == x && y2 == y)
                        implies #[trigger] self.pixel_at(x2, y2) == old(self).pixel_at(x2, y2) by {
                    lemma_row_major_index_bounds(
                        self.width as int, self.height as int, x2, y2);
                    lemma_row_major_index_injective(
                        self.width as int, x2, y2, x as int, y as int);
                }
            }
            Ok(())
        }
    }

    fn get(&self, x: u16, y: u16) -> (r: Option<BGRPixel>) {
        if x >= self.width || y >= self.height {
            None
        } else {
            let start: usize = self.coords_to_index(x, y);
            Some(BGRPixel {
                b: self.data[start],
                g: self.data[start + 1],
                r: self.data[start + 2],
            })
        }
    }

    fn unpack(self) -> (r: Vec<u8>) {
        self.data
    }

    fn as_bytes(&self) -> (r: &[u8]) {
        self.data.as_slice()
    }
}

} // verus!
