//! Points, sizes and rectangles in whole pixels.
use vstd::prelude::*;
use crate::error::WindowError;

verus! {

/// A position on the screen.
#[derive(Clone, Copy, Debug, PartialEq, Eq, Structural)]
pub struct uPoint {
    pub x: i32,
    pub y: i32,
}

impl uPoint {
    pub fn init(x: i32, y: i32) -> (p: Self)
        ensures
            p.x == x,
            p.y == y,
    {
        uPoint { x, y }
    }
}

/// An extent. A size is valid when neither side is negative.
#[derive(Clone, Copy, Debug, PartialEq, Eq, Structural)]
pub struct uSize {
    pub width: i32,
    pub height: i32,
}

impl uSize {
    /// Neither side is negative.
    pub open spec fn valid(self) -> bool {
        self.width >= 0 && self.height >= 0
    }

    /// Builds a size, or refuses a negative side.
    pub fn init(width: i32, height: i32) -> (r: Result<Self, WindowError>)
        ensures
            width >= 0 && height >= 0 ==> r == Ok::<Self, WindowError>((uSize { width, height })),
            width < 0 || height < 0 ==> r == Err::<Self, WindowError>(WindowError::Validation),
    {
        let s = uSize { width, height };
        if s.is_valid() {
            Ok(s)
        } else {
            Err(WindowError::Validation)
        }
    }

    pub fn is_valid(&self) -> (b: bool)
        ensures
            b == self.valid(),
    {
        self.width >= 0 && self.height >= 0
    }
}

/// An origin together with a size. A rectangle is valid when its size is.
#[derive(Clone, Copy, Debug, PartialEq, Eq, Structural)]
pub struct uRect {
    pub x: i32,
    pub y: i32,
    pub width: i32,
    pub height: i32,
}

impl uRect {
    /// The rectangle's top-left corner.
    pub open spec fn spec_origin(&self) -> uPoint {
        uPoint { x: self.x, y: self.y }
    }

    /// The rectangle's extent.
    pub open spec fn spec_size(&self) -> uSize {
        uSize { width: self.width, height: self.height }
    }

    /// The rectangle's size is valid.
    pub open spec fn valid(self) -> bool {
        self.spec_size().valid()
    }

    /// Builds a rectangle, or refuses a negative width or height.
    pub fn init(x: i32, y: i32, width: i32, height: i32) -> (r: Result<Self, WindowError>)
        ensures
            width >= 0 && height >= 0 ==> r == Ok::<Self, WindowError>(
                (uRect { x, y, width, height }),
            ),
            width < 0 || height < 0 ==> r == Err::<Self, WindowError>(WindowError::Validation),
    {
        let rect = uRect { x, y, width, height };
        if rect.is_valid() {
            Ok(rect)
        } else {
            Err(WindowError::Validation)
        }
    }

    /// Puts a size at an origin.
    pub fn from_parts(origin: uPoint, size: uSize) -> (r: Result<Self, WindowError>)
        ensures
            size.valid() ==> r.is_ok() && r.unwrap().spec_origin() == origin
                && r.unwrap().spec_size() == size,
            !size.valid() ==> r == Err::<Self, WindowError>(WindowError::Validation),
    {
        uRect::init(origin.x, origin.y, size.width, size.height)
    }

    #[verifier::when_used_as_spec(spec_origin)]
    pub fn origin(&self) -> (p: uPoint)
        ensures
            p == self.spec_origin(),
    {
        uPoint { x: self.x, y: self.y }
    }

    #[verifier::when_used_as_spec(spec_size)]
    pub fn size(&self) -> (s: uSize)
        ensures
            s == self.spec_size(),
    {
        uSize { width: self.width, height: self.height }
    }

    pub fn is_valid(&self) -> (b: bool)
        ensures
            b == self.valid(),
    {
        self.size().is_valid()
    }
}

} // verus!
