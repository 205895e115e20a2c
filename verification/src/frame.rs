//! Frame geometry: the axis-aligned integer rectangle that describes a
//! frame's visible area.

use vstd::prelude::*;

verus! {

/// An axis-aligned integer rectangle.
///
/// Used for a video frame's visible rectangle (FFmpeg crop, WebCodecs
/// `visibleRect`, ProRes RAW clean aperture).
#[derive(Debug, Clone, Copy, PartialEq, Eq, Structural, Hash)]
pub struct Rect {
    x: u32,
    y: u32,
    width: u32,
    height: u32,
}

impl Rect {
    /// The X coordinate of the top-left corner.
    pub closed spec fn spec_x(self) -> u32 {
        self.x
    }

    /// The Y coordinate of the top-left corner.
    pub closed spec fn spec_y(self) -> u32 {
        self.y
    }

    /// The width.
    pub closed spec fn spec_width(self) -> u32 {
        self.width
    }

    /// The height.
    pub closed spec fn spec_height(self) -> u32 {
        self.height
    }

    /// The rectangle as the tuple `(x, y, width, height)`.
    pub open spec fn parts(self) -> (u32, u32, u32, u32) {
        (self.spec_x(), self.spec_y(), self.spec_width(), self.spec_height())
    }

    /// Two rectangles are equal exactly when their four parts are: setting
    /// a field in place and building with it give the same rectangle.
    pub proof fn law_parts_determine(a: Rect, b: Rect)
        ensures
            a.parts() == b.parts() <==> a == b,
    {
    }

    /// Constructs a `Rect` at `(x, y)` with the given size.
    pub fn new(x: u32, y: u32, width: u32, height: u32) -> (r: Self)
        ensures
            r.parts() == (x, y, width, height),
    {
        Rect { x, y, width, height }
    }

    /// Returns the X coordinate of the top-left corner.
    pub fn x(&self) -> (r: u32)
        ensures
            r == self.spec_x(),
    {
        self.x
    }

    /// Returns the Y coordinate of the top-left corner.
    pub fn y(&self) -> (r: u32)
        ensures
            r == self.spec_y(),
    {
        self.y
    }

    /// Returns the width.
    pub fn width(&self) -> (r: u32)
        ensures
            r == self.spec_width(),
    {
        self.width
    }

    /// Returns the height.
    pub fn height(&self) -> (r: u32)
        ensures
            r == self.spec_height(),
    {
        self.height
    }

    /// Sets the X coordinate (consuming builder).
    pub fn with_x(self, x: u32) -> (r: Self)
        ensures
            r.parts() == (x, self.spec_y(), self.spec_width(), self.spec_height()),
    {
        let mut out = self;
        out.x = x;
        out
    }

    /// Sets the Y coordinate (consuming builder).
    pub fn with_y(self, y: u32) -> (r: Self)
        ensures
            r.parts() == (self.spec_x(), y, self.spec_width(), self.spec_height()),
    {
        let mut out = self;
        out.y = y;
        out
    }

    /// Sets the width (consuming builder).
    pub fn with_width(self, w: u32) -> (r: Self)
        ensures
            r.parts() == (self.spec_x(), self.spec_y(), w, self.spec_height()),
    {
        let mut out = self;
        out.width = w;
        out
    }

    /// Sets the height (consuming builder).
    pub fn with_height(self, h: u32) -> (r: Self)
        ensures
            r.parts() == (self.spec_x(), self.spec_y(), self.spec_width(), h),
    {
        let mut out = self;
        out.height = h;
        out
    }

    /// Sets the X coordinate in place.
    pub fn set_x(&mut self, x: u32) -> (r: &mut Self)
        ensures
            r.parts() == (x, old(self).spec_y(), old(self).spec_width(), old(self).spec_height()),
            *final(self) == *final(r),
    {
        self.x = x;
        self
    }

    /// Sets the Y coordinate in place.
    pub fn set_y(&mut self, y: u32) -> (r: &mut Self)
        ensures
            r.parts() == (old(self).spec_x(), y, old(self).spec_width(), old(self).spec_height()),
            *final(self) == *final(r),
    {
        self.y = y;
        self
    }

    /// Sets the width in place.
    pub fn set_width(&mut self, w: u32) -> (r: &mut Self)
        ensures
            r.parts() == (old(self).spec_x(), old(self).spec_y(), w, old(self).spec_height()),
            *final(self) == *final(r),
    {
        self.width = w;
        self
    }

    /// Sets the height in place.
    pub fn set_height(&mut self, h: u32) -> (r: &mut Self)
        ensures
            r.parts() == (old(self).spec_x(), old(self).spec_y(), old(self).spec_width(), h),
            *final(self) == *final(r),
    {
        self.height = h;
        self
    }
}

impl Default for Rect {
    /// The empty rectangle at the origin.
    fn default() -> (r: Self)
        ensures
            r.parts() == (0u32, 0u32, 0u32, 0u32),
    {
        Rect { x: 0, y: 0, width: 0, height: 0 }
    }
}

} // verus!
