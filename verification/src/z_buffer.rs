use vstd::prelude::*;
use crate::numeric::{lemma_row_major_index_bounds, lemma_row_major_index_injective};

verus! {

/// Outcome of a depth-buffer visibility test.
#[derive(Debug, PartialEq, Eq, Structural)]
pub enum PixelVisibility {
    Visible,
    Hidden,
}

/// Wrapper around a visibility verdict, as handed out by
/// [`ZBuffer::update_buffer`].
pub struct UpdateResult {
    pixel_visibility: PixelVisibility,
}

impl UpdateResult {
    /// The verdict carried by this result.
    pub closed spec fn visibility(&self) -> PixelVisibility {
        self.pixel_visibility
    }

    pub fn new(pixel_visibility: PixelVisibility) -> (r: UpdateResult)
        ensures
            r.visibility() == pixel_visibility,
    {
        UpdateResult { pixel_visibility }
    }

    /// Runs `func` exactly when the verdict is `Visible`.
    pub fn if_pixel_visible<F: FnOnce()>(self, func: F)
        requires
            self.visibility() == PixelVisibility::Visible ==> call_requires(func, ()),
        ensures
            self.visibility() == PixelVisibility::Visible ==> call_ensures(func, (), ()),
    {
        if self.pixel_visibility == PixelVisibility::Visible {
            func();
        }
    }

    pub fn unwrap(self) -> (r: PixelVisibility)
        ensures
            r == self.visibility(),
    {
        self.pixel_visibility
    }
}

/// Largest depth value a sample can hold: depths are quantized to the
/// domain `[0, 255]` and stored one byte per pixel.
pub const MAX_DEPTH: u32 = 255;

/// A width x height grid of per-pixel depth samples, all starting at the
/// minimum depth. An incoming sample at least as deep as the stored one
/// wins the pixel and replaces the stored sample ("last writer wins" on
/// ties); a smaller one is hidden and changes nothing.
#[derive(Debug, Clone)]
pub struct ZBuffer {
    width: u32,
    height: u32,
    data: Vec<u8>,
}

impl ZBuffer {
    /// The grid holds one sample per pixel, in row-major order.
    pub closed spec fn wf(&self) -> bool {
        self.data.len() == self.width * self.height
    }

    pub closed spec fn width_spec(&self) -> int {
        self.width as int
    }

    pub closed spec fn height_spec(&self) -> int {
        self.height as int
    }

    /// The stored depth sample at pixel (x, y).
    pub closed spec fn depth_at(&self, x: int, y: int) -> u8 {
        self.data[y * self.width + x]
    }

    /// The whole grid of samples, in row-major order.
    pub closed spec fn grid(&self) -> Seq<u8> {
        self.data@
    }

    pub fn new(width: u32, height: u32) -> (r: ZBuffer)
        requires
            width * height <= usize::MAX,
        ensures
            r.wf(),
            r.width_spec() == width,
            r.height_spec() == height,
            forall|x: int, y: int|
                0 <= x < width && 0 <= y < height ==> r.depth_at(x, y) == 0,
    {
        let len: usize = (width as usize) * (height as usize);
        let mut data: Vec<u8> = Vec::new();
        let mut i: usize = 0;
        while i < len
            invariant
                i <= len,
                data.len() == i,
                forall|j: int| 0 <= j < i ==> data[j] == 0,
            decreases len - i,
        {
            data.push(0);
            i = i + 1;
        }
        let r = ZBuffer { width, height, data };
        proof {
            assert forall|x: int, y: int| 0 <= x < width && 0 <= y < height
                implies #[trigger] r.depth_at(x, y) == 0 by {
                lemma_row_major_index_bounds(width as int, height as int, x, y);
            }
        }
        r
    }

    /// The visibility test and update: an incoming depth `z` at least as
    /// large as the stored sample is `Visible` and overwrites the sample;
    /// a smaller one is `Hidden` and leaves the buffer untouched.
    pub fn update_buffer(&mut self, x: u32, y: u32, z: u32) -> (r: UpdateResult)
        requires
            old(self).wf(),
            x < old(self).width_spec(),
            y < old(self).height_spec(),
            z <= MAX_DEPTH,
        ensures
            final(self).wf(),
            final(self).width_spec() == old(self).width_spec(),
            final(self).height_spec() == old(self).height_spec(),
            r.visibility() == (if old(self).depth_at(x as int, y as int) <= z {
                PixelVisibility::Visible
            } else {
                PixelVisibility::Hidden
            }),
            final(self).depth_at(x as int, y as int) == (if old(self).depth_at(x as int, y as int) <= z {
                z as u8
            } else {
                old(self).depth_at(x as int, y as int)
            }),
            forall|x2: int, y2: int|
                0 <= x2 < final(self).width_spec() && 0 <= y2 < final(self).height_spec()
                    && !(x2 == x && y2 == y)
                    ==> final(self).depth_at(x2, y2) == old(self).depth_at(x2, y2),
    {
        proof {
            lemma_row_major_index_bounds(
                self.width as int, self.height as int, x as int, y as int);
        }
        let idx: usize = (y as usize) * (self.width as usize) + (x as usize);
        let visible = self.data[idx] as u32 <= z;
        if visible {
            self.data.set(idx, z as u8);
        }
        proof {
            assert forall|x2: int, y2: int|
                0 <= x2 < self.width_spec() && 0 <= y2 < self.height_spec()
                    && !(x2 == x && y2 == y)
                    implies #[trigger] self.depth_at(x2, y2) == old(self).depth_at(x2, y2) by {
                lemma_row_major_index_bounds(
                    self.width as int, self.height as int, x2, y2);
                lemma_row_major_index_injective(
                    self.width as int, x2, y2, x as int, y as int);
            }
        }
        if visible {
            UpdateResult::new(PixelVisibility::Visible)
        } else {
            UpdateResult::new(PixelVisibility::Hidden)
        }
    }

    /// Gives up the grid: the raw samples in row-major order.
    pub fn unpack(self) -> (r: Vec<u8>)
        ensures
            r@ == self.grid(),
            self.wf() ==> r@.len() == self.width_spec() * self.height_spec(),
            forall|x: int, y: int|
                0 <= x < self.width_spec() && 0 <= y < self.height_spec()
                    ==> r@[y * self.width_spec() + x] == self.depth_at(x, y),
    {
        self.data
    }
}

/// The stored sample after a sequence of visibility tests, by the
/// update rule: an incoming depth at least the stored one replaces it.
pub open spec fn stored_after(stored: int, depths: Seq<int>) -> int
    decreases depths.len(),
{
    if depths.len() == 0 {
        stored
    } else {
        stored_after(
            if stored <= depths[0] {
                depths[0]
            } else {
                stored
            },
            depths.drop_first(),
        )
    }
}

/// Whether every test in the sequence reports `Visible` under the
/// update rule.
pub open spec fn all_visible(stored: int, depths: Seq<int>) -> bool
    decreases depths.len(),
{
    depths.len() == 0 || (stored <= depths[0] && all_visible(depths[0], depths.drop_first()))
}

/// Depth monotonicity at one pixel: a sequence of tests with
/// non-decreasing depths, starting at or above the stored sample, each
/// reports `Visible`, and the stored sample ends at the last depth. (A
/// single test below the stored sample reports `Hidden` and changes
/// nothing — that is the update rule itself, as `update_buffer`
/// guarantees for each call.)
pub proof fn lemma_depth_monotonicity(stored: int, depths: Seq<int>)
    requires
        depths.len() > 0,
        stored <= depths[0],
        forall|i: int| 0 <= i < depths.len() - 1 ==> #[trigger] depths[i] <= depths[i + 1],
    ensures
        all_visible(stored, depths),
        stored_after(stored, depths) == depths[depths.len() - 1],
    decreases depths.len(),
{
    let first_stored: int = if stored <= depths[0] {
        depths[0]
    } else {
        stored
    };
    assert(first_stored == depths[0]);
    assert(stored_after(stored, depths) == stored_after(depths[0], depths.drop_first()));
    assert(all_visible(stored, depths) == (stored <= depths[0] && all_visible(
        depths[0],
        depths.drop_first(),
    )));
    if depths.len() == 1 {
        assert(stored_after(depths[0], depths.drop_first()) == depths[0]);
        assert(all_visible(depths[0], depths.drop_first()));
    } else {
        let rest = depths.drop_first();
        assert(depths[0] <= depths[1]);
        assert(rest[0] == depths[1]);
        assert forall|i: int| 0 <= i < rest.len() - 1 implies #[trigger] rest[i] <= rest[i
            + 1] by {
            assert(depths[i + 1] <= depths[i + 2]);
        }
        lemma_depth_monotonicity(depths[0], rest);
        assert(rest[rest.len() - 1] == depths[depths.len() - 1]);
    }
}

} // verus!
