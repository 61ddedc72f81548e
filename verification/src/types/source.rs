use vstd::prelude::*;

verus! {

/// Where the elements of a view live: in the caller's container, or in a
/// buffer that the view filled when it decoded a text.
pub enum Source<'a, T> {
    /// Elements borrowed from an array, a slice or a vector.
    Borrowed(&'a [T]),
    /// Characters decoded from a text, one element for each character.
    Decoded(Vec<T>),
}

impl<'a, T> Source<'a, T> {
    /// The elements, in order.
    pub open spec fn elements(&self) -> Seq<T> {
        match self {
            Source::Borrowed(items) => items@,
            Source::Decoded(items) => items@,
        }
    }

    /// The number of elements.
    pub fn len(&self) -> (len: usize)
        ensures
            len == self.elements().len(),
    {
        match self {
            Source::Borrowed(items) => items.len(),
            Source::Decoded(items) => items.len(),
        }
    }

    /// The element at `index`.
    pub fn get(&self, index: usize) -> (element: &T)
        requires
            index < self.elements().len(),
        ensures
            *element == self.elements()[index as int],
    {
        match self {
            Source::Borrowed(items) => &items[index],
            Source::Decoded(items) => &items[index],
        }
    }
}

/// Decodes a text into its characters. This walks the whole text: its cost
/// grows with the length of the text.
pub fn decode(text: &str) -> (characters: Vec<char>)
    ensures
        characters@ == text@,
{
    let mut characters: Vec<char> = Vec::new();
    for character in remaining: text.chars()
        invariant
            remaining.seq() == text@,
            characters@ == remaining.seq().take(remaining.index()),
    {
        characters.push(character);
    }
    characters
}

} // verus!
