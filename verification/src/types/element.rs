use vstd::prelude::*;

verus! {

/// A type whose values can stand as the elements of a sequence: two values
/// can be compared, and the comparison says whether they are the same value.
///
/// The library implements it for `bool`, `char`, the integer types and
/// references to elements. Another type becomes an element type by an
/// implementation of its own.
pub trait Element: Sized {
    /// Whether `self` and `other` are the same value.
    fn same_as(&self, other: &Self) -> (equal: bool)
        ensures
            equal == (*self == *other),
    ;
}

impl Element for bool {
    fn same_as(&self, other: &Self) -> (equal: bool) {
        *self == *other
    }
}

impl Element for char {
    fn same_as(&self, other: &Self) -> (equal: bool) {
        *self == *other
    }
}

impl Element for u8 {
    fn same_as(&self, other: &Self) -> (equal: bool) {
        *self == *other
    }
}

impl Element for u16 {
    fn same_as(&self, other: &Self) -> (equal: bool) {
        *self == *other
    }
}

impl Element for u32 {
    fn same_as(&self, other: &Self) -> (equal: bool) {
        *self == *other
    }
}

impl Element for u64 {
    fn same_as(&self, other: &Self) -> (equal: bool) {
        *self == *other
    }
}

impl Element for u128 {
    fn same_as(&self, other: &Self) -> (equal: bool) {
        *self == *other
    }
}

impl Element for usize {
    fn same_as(&self, other: &Self) -> (equal: bool) {
        *self == *other
    }
}

impl Element for i8 {
    fn same_as(&self, other: &Self) -> (equal: bool) {
        *self == *other
    }
}

impl Element for i16 {
    fn same_as(&self, other: &Self) -> (equal: bool) {
        *self == *other
    }
}

impl Element for i32 {
    fn same_as(&self, other: &Self) -> (equal: bool) {
        *self == *other
    }
}

impl Element for i64 {
    fn same_as(&self, other: &Self) -> (equal: bool) {
        *self == *other
    }
}

impl Element for i128 {
    fn same_as(&self, other: &Self) -> (equal: bool) {
        *self == *other
    }
}

impl Element for isize {
    fn same_as(&self, other: &Self) -> (equal: bool) {
        *self == *other
    }
}

impl<'a, T: Element> Element for &'a T {
    fn same_as(&self, other: &Self) -> (equal: bool) {
        (**self).same_as(&**other)
    }
}

} // verus!
