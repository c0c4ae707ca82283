//! The finished two-dimensional color buffer: a pixel capability contract,
//! a buffer-wide read/write contract, and the buffer itself, indexed by
//! pixel coordinate over a row-major vector.

pub mod implementation;

use vstd::prelude::*;

verus! {

/// A pixel value with three channels that can be read and written
/// independently.
pub trait Pixelatable: Sized {
    type Component;

    /// The red channel in specification terms.
    spec fn red_spec(&self) -> Self::Component;

    /// The green channel in specification terms.
    spec fn green_spec(&self) -> Self::Component;

    /// The blue channel in specification terms.
    spec fn blue_spec(&self) -> Self::Component;

    fn get_red_channel(&self) -> (r: Self::Component)
        ensures
            r == self.red_spec(),
    ;

    fn get_green_channel(&self) -> (r: Self::Component)
        ensures
            r == self.green_spec(),
    ;

    fn get_blue_channel(&self) -> (r: Self::Component)
        ensures
            r == self.blue_spec(),
    ;

    fn set_red_channel(&mut self, new_r: Self::Component)
        ensures
            final(self).red_spec() == new_r,
            final(self).green_spec() == old(self).green_spec(),
            final(self).blue_spec() == old(self).blue_spec(),
    ;

    fn set_green_channel(&mut self, new_g: Self::Component)
        ensures
            final(self).green_spec() == new_g,
            final(self).red_spec() == old(self).red_spec(),
            final(self).blue_spec() == old(self).blue_spec(),
    ;

    fn set_blue_channel(&mut self, new_b: Self::Component)
        ensures
            final(self).blue_spec() == new_b,
            final(self).red_spec() == old(self).red_spec(),
            final(self).green_spec() == old(self).green_spec(),
    ;

    /// The value a fresh pixel starts from, in specification terms.
    spec fn new_spec() -> Self;

    fn new() -> (p: Self)
        ensures
            p == Self::new_spec(),
    ;
}

/// A two-dimensional buffer of pixels, read and written one channel at a
/// time by pixel coordinate.
pub trait Displayable: Sized {
    type Component;

    /// The buffer is internally consistent.
    spec fn wf(&self) -> bool;

    /// The number of pixels held.
    spec fn len_spec(&self) -> int;

    /// The pixel resolution in specification terms.
    spec fn res_spec(&self) -> (u32, u32);

    /// Whether a pixel coordinate lies inside the resolution.
    spec fn in_bounds(&self, index: (u32, u32)) -> bool;

    /// The row-major position of a pixel coordinate.
    spec fn linear_index(&self, index: (u32, u32)) -> int;

    /// The red channel of the pixel at a row-major position.
    spec fn red_at(&self, li: int) -> Self::Component;

    /// The green channel of the pixel at a row-major position.
    spec fn green_at(&self, li: int) -> Self::Component;

    /// The blue channel of the pixel at a row-major position.
    spec fn blue_at(&self, li: int) -> Self::Component;

    fn get_red_channel(&self, index: (u32, u32)) -> (r: Self::Component)
        requires
            self.wf(),
            self.in_bounds(index),
        ensures
            r == self.red_at(self.linear_index(index)),
    ;

    fn get_green_channel(&self, index: (u32, u32)) -> (r: Self::Component)
        requires
            self.wf(),
            self.in_bounds(index),
        ensures
            r == self.green_at(self.linear_index(index)),
    ;

    fn get_blue_channel(&self, index: (u32, u32)) -> (r: Self::Component)
        requires
            self.wf(),
            self.in_bounds(index),
        ensures
            r == self.blue_at(self.linear_index(index)),
    ;

    fn set_red_channel(&mut self, index: (u32, u32), new_r: Self::Component)
        requires
            old(self).wf(),
            old(self).in_bounds(index),
        ensures
            final(self).wf(),
            final(self).res_spec() == old(self).res_spec(),
            final(self).len_spec() == old(self).len_spec(),
            final(self).red_at(old(self).linear_index(index)) == new_r,
            forall|j: int|
                0 <= j < old(self).len_spec() && j != old(self).linear_index(index)
                    ==> #[trigger] final(self).red_at(j) == old(self).red_at(j),
            forall|j: int|
                0 <= j < old(self).len_spec() ==> #[trigger] final(self).green_at(j) == old(
                    self,
                ).green_at(j),
            forall|j: int|
                0 <= j < old(self).len_spec() ==> #[trigger] final(self).blue_at(j) == old(
                    self,
                ).blue_at(j),
    ;

    fn set_green_channel(&mut self, index: (u32, u32), new_g: Self::Component)
        requires
            old(self).wf(),
            old(self).in_bounds(index),
        ensures
            final(self).wf(),
            final(self).res_spec() == old(self).res_spec(),
            final(self).len_spec() == old(self).len_spec(),
            final(self).green_at(old(self).linear_index(index)) == new_g,
            forall|j: int|
                0 <= j < old(self).len_spec() && j != old(self).linear_index(index)
                    ==> #[trigger] final(self).green_at(j) == old(self).green_at(j),
            forall|j: int|
                0 <= j < old(self).len_spec() ==> #[trigger] final(self).red_at(j) == old(
                    self,
                ).red_at(j),
            forall|j: int|
                0 <= j < old(self).len_spec() ==> #[trigger] final(self).blue_at(j) == old(
                    self,
                ).blue_at(j),
    ;

    fn set_blue_channel(&mut self, index: (u32, u32), new_b: Self::Component)
        requires
            old(self).wf(),
            old(self).in_bounds(index),
        ensures
            final(self).wf(),
            final(self).res_spec() == old(self).res_spec(),
            final(self).len_spec() == old(self).len_spec(),
            final(self).blue_at(old(self).linear_index(index)) == new_b,
            forall|j: int|
                0 <= j < old(self).len_spec() && j != old(self).linear_index(index)
                    ==> #[trigger] final(self).blue_at(j) == old(self).blue_at(j),
            forall|j: int|
                0 <= j < old(self).len_spec() ==> #[trigger] final(self).red_at(j) == old(
                    self,
                ).red_at(j),
            forall|j: int|
                0 <= j < old(self).len_spec() ==> #[trigger] final(self).green_at(j) == old(
                    self,
                ).green_at(j),
    ;

    fn get_color_components(&self, index: (u32, u32)) -> (t: (
        Self::Component,
        Self::Component,
        Self::Component,
    ))
        requires
            self.wf(),
            self.in_bounds(index),
        ensures
            t.0 == self.red_at(self.linear_index(index)),
            t.1 == self.green_at(self.linear_index(index)),
            t.2 == self.blue_at(self.linear_index(index)),
    ;

    fn get_resolution(&self) -> (res: (u32, u32))
        ensures
            res == self.res_spec(),
    ;
}

/// The color buffer: one pixel per coordinate inside the resolution,
/// stored row-major.
pub struct Screen<P: Pixelatable> {
    pub pixels: Vec<P>,
    pub resolution: (u32, u32),
}

} // verus!
