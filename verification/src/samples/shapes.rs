//! A rectangle with whole-number sides, and what can be asked of it.

use vstd::prelude::*;

verus! {

/// A rectangle; `width` and `height` are its sides.
#[derive(Debug, PartialEq, Eq, Structural)]
pub struct Rectangle {
    pub width: u32,
    pub height: u32,
}

/// The larger of two numbers.
pub open spec fn larger(a: int, b: int) -> int {
    if a >= b {
        a
    } else {
        b
    }
}

impl Rectangle {
    /// Width times height.
    pub open spec fn spec_area(self) -> int {
        self.width * self.height
    }

    /// Twice the sum of the sides.
    pub open spec fn spec_perimeter(self) -> int {
        2 * (self.width + self.height)
    }

    /// A rectangle with the given sides.
    pub fn new(width: u32, height: u32) -> (rectangle: Rectangle)
        ensures
            rectangle == (Rectangle { width, height }),
    {
        Rectangle { width, height }
    }

    /// A square with side `size`.
    pub fn square(size: u32) -> (rectangle: Rectangle)
        ensures
            rectangle == (Rectangle { width: size, height: size }),
    {
        Rectangle { width: size, height: size }
    }

    /// The unit square.
    pub fn default() -> (rectangle: Rectangle)
        ensures
            rectangle == (Rectangle { width: 1, height: 1 }),
    {
        Rectangle { width: 1, height: 1 }
    }

    /// The width.
    pub fn width(&self) -> (width: u32)
        ensures
            width == self.width,
    {
        self.width
    }

    /// Whether the width is more than nothing.
    pub fn has_width(&self) -> (has: bool)
        ensures
            has == (self.width > 0),
    {
        self.width > 0
    }

    /// The area.
    pub fn area(&self) -> (area: u32)
        requires
            self.spec_area() <= u32::MAX,
        ensures
            area == self.spec_area(),
    {
        self.width * self.height
    }

    /// The perimeter.
    pub fn perimeter(&self) -> (perimeter: u32)
        requires
            self.spec_perimeter() <= u32::MAX,
        ensures
            perimeter == self.spec_perimeter(),
    {
        2 * (self.width + self.height)
    }

    /// Whether both sides are equal.
    pub fn is_square(&self) -> (square: bool)
        ensures
            square == (self.width == self.height),
    {
        self.width == self.height
    }

    /// Whether `other` fits inside with room to spare on both sides.
    pub fn can_hold(&self, other: &Rectangle) -> (holds: bool)
        ensures
            holds == (self.width > other.width && self.height > other.height),
    {
        self.width > other.width && self.height > other.height
    }

    /// Replaces the width.
    pub fn set_width(&mut self, width: u32)
        ensures
            *final(self) == (Rectangle { width, height: old(self).height }),
    {
        self.width = width;
    }

    /// Replaces the height.
    pub fn set_height(&mut self, height: u32)
        ensures
            *final(self) == (Rectangle { width: old(self).width, height }),
    {
        self.height = height;
    }

    /// Replaces both sides.
    pub fn resize(&mut self, new_width: u32, new_height: u32)
        ensures
            *final(self) == (Rectangle { width: new_width, height: new_height }),
    {
        self.width = new_width;
        self.height = new_height;
    }

    /// Multiplies both sides by `factor`.
    pub fn scale(&mut self, factor: u32)
        requires
            old(self).width * factor <= u32::MAX,
            old(self).height * factor <= u32::MAX,
        ensures
            final(self).width == old(self).width * factor,
            final(self).height == old(self).height * factor,
    {
        self.width = self.width * factor;
        self.height = self.height * factor;
    }

    /// Doubles both sides.
    pub fn double(&mut self)
        requires
            2 * old(self).width <= u32::MAX,
            2 * old(self).height <= u32::MAX,
        ensures
            final(self).width == 2 * old(self).width,
            final(self).height == 2 * old(self).height,
    {
        self.width = self.width * 2;
        self.height = self.height * 2;
    }

    /// The smallest rectangle that is as wide and as high as both.
    pub fn max(self, other: Rectangle) -> (rectangle: Rectangle)
        ensures
            rectangle.width == larger(self.width as int, other.width as int),
            rectangle.height == larger(self.height as int, other.height as int),
    {
        Rectangle {
            width: if self.width >= other.width {
                self.width
            } else {
                other.width
            },
            height: if self.height >= other.height {
                self.height
            } else {
                other.height
            },
        }
    }

    /// The square whose side is the longer side of this rectangle.
    pub fn into_square(self) -> (rectangle: Rectangle)
        ensures
            rectangle.width == larger(self.width as int, self.height as int),
            rectangle.height == rectangle.width,
    {
        let size = if self.width >= self.height {
            self.width
        } else {
            self.height
        };
        Rectangle { width: size, height: size }
    }
}

} // verus!
