//! The buffer construction and the `Displayable` contract for the screen:
//! one fresh pixel per coordinate, channels read and written through the
//! row-major linear index.

use vstd::prelude::*;

use crate::screen::{Displayable, Pixelatable, Screen};

verus! {

impl<P: Pixelatable> Screen<P> {
    /// A buffer of fresh pixels covering the resolution.
    pub fn new(res: (u32, u32)) -> (s: Self)
        requires
            (res.0 as int) * (res.1 as int) <= u32::MAX,
        ensures
            s.wf(),
            s.res_spec() == res,
            forall|j: int| 0 <= j < s.len_spec() ==> #[trigger] s.pixels@[j] == P::new_spec(),
    {
        let total: u32 = res.0 * res.1;
        let mut v = Vec::<P>::new();
        let mut k: u32 = 0;
        while k < total
            invariant
                0 <= k <= total,
                v@.len() == k,
                forall|j: int| 0 <= j < v@.len() ==> #[trigger] v@[j] == P::new_spec(),
            decreases total - k,
        {
            v.push(P::new());
            k = k + 1;
        }
        Self { pixels: v, resolution: res }
    }
}

impl<P: Pixelatable> Displayable for Screen<P> {
    type Component = P::Component;

    /// The buffer holds exactly one pixel per coordinate.
    open spec fn wf(&self) -> bool {
        self.pixels@.len() == (self.resolution.0 as int) * (self.resolution.1 as int)
    }

    open spec fn len_spec(&self) -> int {
        self.pixels@.len() as int
    }

    open spec fn res_spec(&self) -> (u32, u32) {
        self.resolution
    }

    open spec fn in_bounds(&self, index: (u32, u32)) -> bool {
        index.0 < self.resolution.1 && index.1 < self.resolution.0
    }

    open spec fn linear_index(&self, index: (u32, u32)) -> int {
        (self.resolution.0 as int) * (index.0 as int) + index.1 as int
    }

    open spec fn red_at(&self, li: int) -> Self::Component {
        self.pixels@[li].red_spec()
    }

    open spec fn green_at(&self, li: int) -> Self::Component {
        self.pixels@[li].green_spec()
    }

    open spec fn blue_at(&self, li: int) -> Self::Component {
        self.pixels@[li].blue_spec()
    }

    fn get_red_channel(&self, index: (u32, u32)) -> (r: Self::Component) {
        let (num_rows, _num_cols) = self.get_resolution();
        let buf_len: usize = self.pixels.len();
        proof {
            lemma_linear_in_range(self.resolution, index);
        }
        let linear_index: usize = (num_rows as usize) * (index.0 as usize) + index.1 as usize;
        self.pixels[linear_index].get_red_channel()
    }

    fn get_green_channel(&self, index: (u32, u32)) -> (r: Self::Component) {
        let (num_rows, _num_cols) = self.get_resolution();
        let buf_len: usize = self.pixels.len();
        proof {
            lemma_linear_in_range(self.resolution, index);
        }
        let linear_index: usize = (num_rows as usize) * (index.0 as usize) + index.1 as usize;
        self.pixels[linear_index].get_green_channel()
    }

    fn get_blue_channel(&self, index: (u32, u32)) -> (r: Self::Component) {
        let (num_rows, _num_cols) = self.get_resolution();
        let buf_len: usize = self.pixels.len();
        proof {
            lemma_linear_in_range(self.resolution, index);
        }
        let linear_index: usize = (num_rows as usize) * (index.0 as usize) + index.1 as usize;
        self.pixels[linear_index].get_blue_channel()
    }

    fn set_red_channel(&mut self, index: (u32, u32), new_r: Self::Component) {
        let (num_rows, _num_cols) = self.get_resolution();
        let buf_len: usize = self.pixels.len();
        proof {
            lemma_linear_in_range(self.resolution, index);
        }
        let linear_index: usize = (num_rows as usize) * (index.0 as usize) + index.1 as usize;
        let pixel: &mut P = &mut self.pixels[linear_index];
        pixel.set_red_channel(new_r);
    }

    fn set_green_channel(&mut self, index: (u32, u32), new_g: Self::Component) {
        let (num_rows, _num_cols) = self.get_resolution();
        let buf_len: usize = self.pixels.len();
        proof {
            lemma_linear_in_range(self.resolution, index);
        }
        let linear_index: usize = (num_rows as usize) * (index.0 as usize) + index.1 as usize;
        let pixel: &mut P = &mut self.pixels[linear_index];
        pixel.set_green_channel(new_g);
    }

    fn set_blue_channel(&mut self, index: (u32, u32), new_b: Self::Component) {
        let (num_rows, _num_cols) = self.get_resolution();
        let buf_len: usize = self.pixels.len();
        proof {
            lemma_linear_in_range(self.resolution, index);
        }
        let linear_index: usize = (num_rows as usize) * (index.0 as usize) + index.1 as usize;
        let pixel: &mut P = &mut self.pixels[linear_index];
        pixel.set_blue_channel(new_b);
    }

    fn get_color_components(&self, index: (u32, u32)) -> (t: (
        Self::Component,
        Self::Component,
        Self::Component,
    )) {
        (
            self.get_red_channel(index),
            self.get_green_channel(index),
            self.get_blue_channel(index),
        )
    }

    fn get_resolution(&self) -> (res: (u32, u32)) {
        self.resolution
    }
}

/// Inside the resolution, the row-major index stays inside the buffer.
proof fn lemma_linear_in_range(res: (u32, u32), index: (u32, u32))
    requires
        index.0 < res.1,
        index.1 < res.0,
    ensures
        0 <= (res.0 as int) * (index.0 as int) + (index.1 as int) && (res.0 as int) * (index.0 as int) + (index.1 as int) < (res.0 as int) * (res.1 as int),
{
    assert(0 <= (res.0 as int) * (index.0 as int) + (index.1 as int) && (res.0 as int) * (
    index.0 as int) + (index.1 as int) < (res.0 as int) * (res.1 as int)) by (nonlinear_arith)
        requires
            index.0 < res.1,
            index.1 < res.0,
            res.0 >= 1,
    ;
}

} // verus!
