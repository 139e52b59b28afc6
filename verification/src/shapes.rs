//! Rectangles and small record types: areas, containment, constructors.

use vstd::prelude::*;

verus! {

/// An axis-aligned rectangle measured in pixels.
#[derive(Clone, Copy, PartialEq, Eq, Structural, Debug)]
pub struct Rectangle {
    pub width: u32,
    pub height: u32,
}

impl Rectangle {
    /// The area, computed from the sides.
    pub fn area_method(&self) -> (r: u32)
        requires
            self.width * self.height <= u32::MAX,
        ensures
            r == self.width * self.height,
    {
        self.width * self.height
    }

    /// Reads the width.
    pub fn width(&self) -> (r: u32)
        ensures
            r == self.width,
    {
        self.width
    }

    /// Reads the height.
    pub fn height(&self) -> (r: u32)
        ensures
            r == self.height,
    {
        self.height
    }

    /// True exactly when `self` strictly contains `another` in both axes.
    pub fn can_hold(&self, another: &Rectangle) -> (r: bool)
        ensures
            r == (self.width > another.width && self.height > another.height),
    {
        self.width > another.width && self.height > another.height
    }

    /// The square with the given side.
    pub fn square(size: u32) -> (r: Self)
        ensures
            r.width == size,
            r.height == size,
    {
        Self { width: size, height: size }
    }
}

/// The area of a rectangle given by its sides.
pub fn area(width: u32, height: u32) -> (r: u32)
    requires
        width * height <= u32::MAX,
    ensures
        r == width * height,
{
    width * height
}

/// The area of a rectangle value.
pub fn area_struct(rectangle: &Rectangle) -> (r: u32)
    requires
        rectangle.width * rectangle.height <= u32::MAX,
    ensures
        r == rectangle.width * rectangle.height,
{
    rectangle.width * rectangle.height
}

/// An account record.
pub struct User {
    pub active: bool,
    pub username: String,
    pub email: String,
    pub sign_in_count: u64,
}

impl Default for User {
    /// The blank account: inactive, unnamed, never signed in.
    fn default() -> (r: User)
        ensures
            !r.active,
            r.username@.len() == 0,
            r.email@.len() == 0,
            r.sign_in_count == 0,
    {
        User { active: false, username: String::new(), email: String::new(), sign_in_count: 0 }
    }
}

impl User {
    /// A fresh account, with every field at its default.
    pub fn new() -> (r: User)
        ensures
            !r.active,
            r.username@.len() == 0,
            r.email@.len() == 0,
            r.sign_in_count == 0,
    {
        User::default()
    }
}

/// A person record borrowing its names from the caller.
pub struct Person<'a> {
    pub active: bool,
    pub username: &'a str,
    pub email: &'a str,
}

impl<'a> Person<'a> {
    /// A new person is active and carries the given names.
    pub fn new(username: &'a str, email: &'a str) -> (r: Person<'a>)
        ensures
            r.active,
            r.username@ == username@,
            r.email@ == email@,
    {
        Person { active: true, username, email }
    }
}

/// A colour as three signed channels.
#[derive(Clone, Copy, PartialEq, Eq, Structural, Debug)]
pub struct Color(pub i32, pub i32, pub i32);

} // verus!
