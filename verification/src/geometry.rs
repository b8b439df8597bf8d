use vstd::prelude::*;

verus! {

/// A point in pixel coordinates.
#[derive(Clone, Copy, Debug, PartialEq, Eq)]
pub struct Point2D<T> {
    pub x: T,
    pub y: T,
}

/// A size (or a displacement) in pixels.
#[derive(Clone, Copy, Debug, PartialEq, Eq)]
pub struct Size2D<T> {
    pub width: T,
    pub height: T,
}

/// An axis-aligned rectangle: its upper left corner and its size.
#[derive(Clone, Copy, Debug, PartialEq, Eq)]
pub struct Rect<T> {
    pub origin: Point2D<T>,
    pub size: Size2D<T>,
}

impl<T> Point2D<T> {
    pub fn new(x: T, y: T) -> (p: Point2D<T>)
        ensures
            p.x == x,
            p.y == y,
    {
        Point2D { x, y }
    }
}

impl<T> Size2D<T> {
    pub fn new(width: T, height: T) -> (s: Size2D<T>)
        ensures
            s.width == width,
            s.height == height,
    {
        Size2D { width, height }
    }
}

impl<T> Rect<T> {
    pub fn new(origin: Point2D<T>, size: Size2D<T>) -> (r: Rect<T>)
        ensures
            r.origin == origin,
            r.size == size,
    {
        Rect { origin, size }
    }
}

impl Point2D<isize> {
    /// The same point with unsigned coordinates; both must be non-negative.
    pub fn to_usize_checked(&self) -> (p: Point2D<usize>)
        requires
            self.x >= 0,
            self.y >= 0,
        ensures
            p.x == self.x,
            p.y == self.y,
    {
        Point2D { x: self.x as usize, y: self.y as usize }
    }
}

impl Size2D<isize> {
    /// The same size with unsigned extents; both must be non-negative.
    pub fn to_usize_checked(&self) -> (s: Size2D<usize>)
        requires
            self.width >= 0,
            self.height >= 0,
        ensures
            s.width == self.width,
            s.height == self.height,
    {
        Size2D { width: self.width as usize, height: self.height as usize }
    }
}

impl Rect<usize> {
    /// Number of pixels covered.
    pub fn area(&self) -> (a: usize)
        requires
            self.size.width * self.size.height <= usize::MAX,
        ensures
            a == self.size.width * self.size.height,
    {
        self.size.width * self.size.height
    }
}

} // verus!
