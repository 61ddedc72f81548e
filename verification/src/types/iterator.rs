use crate::types::source::{decode, Source};
use vstd::array::{array_as_slice, spec_array_as_slice};
use vstd::prelude::*;
use vstd::std_specs::convert::FromSpecImpl;

verus! {

/// A one-pass, forward view over the elements of a sequence whose length
/// is not asked for.
///
/// The view borrows arrays, slices and vectors. A text is decoded into its
/// characters when the view is made, which costs a pass over the text.
pub struct SpatiumIterator<'a, T> {
    source: Source<'a, T>,
    position: usize,
}

impl<'a, T> View for SpatiumIterator<'a, T> {
    type V = Seq<T>;

    /// The elements that the view has yet to yield, in order.
    closed spec fn view(&self) -> Seq<T> {
        self.source.elements().skip(self.position as int)
    }
}

impl<'a, T> SpatiumIterator<'a, T> {
    #[verifier::type_invariant]
    spec fn position_in_range(self) -> bool {
        self.position <= self.source.elements().len()
    }

    /// A view at the start of `items`.
    pub closed spec fn over(items: &'a [T]) -> Self {
        SpatiumIterator { source: Source::Borrowed(items), position: 0 }
    }

    /// Yields the next element and moves past it, or `None` once every
    /// element was yielded.
    pub fn next(&mut self) -> (element: Option<&T>)
        ensures
            old(self)@.len() <= usize::MAX,
            match element {
                Some(e) => {
                    &&& old(self)@.len() > 0
                    &&& *e == old(self)@[0]
                    &&& final(self)@ == old(self)@.drop_first()
                },
                None => old(self)@.len() == 0 && final(self)@ == old(self)@,
            },
    {
        proof {
            use_type_invariant(&*self);
        }
        let index: usize = self.position;
        if index < self.source.len() {
            self.position = index + 1;
            assert(self.source.elements().skip(index as int).drop_first()
                == self.source.elements().skip(index + 1));
            Some(self.source.get(index))
        } else {
            None
        }
    }
}

impl<'a, T> From<&'a [T]> for SpatiumIterator<'a, T> {
    fn from(obj: &'a [T]) -> (view: Self)
        ensures
            view@ == obj@,
    {
        SpatiumIterator { source: Source::Borrowed(obj), position: 0 }
    }
}

impl<'a, T> FromSpecImpl<&'a [T]> for SpatiumIterator<'a, T> {
    open spec fn obeys_from_spec() -> bool {
        true
    }

    open spec fn from_spec(obj: &'a [T]) -> Self {
        SpatiumIterator::over(obj)
    }
}

impl<'a, T, const K: usize> From<&'a [T; K]> for SpatiumIterator<'a, T> {
    fn from(obj: &'a [T; K]) -> (view: Self)
        ensures
            view@ == obj@,
    {
        SpatiumIterator { source: Source::Borrowed(array_as_slice(obj)), position: 0 }
    }
}

impl<'a, T, const K: usize> FromSpecImpl<&'a [T; K]> for SpatiumIterator<'a, T> {
    open spec fn obeys_from_spec() -> bool {
        true
    }

    open spec fn from_spec(obj: &'a [T; K]) -> Self {
        SpatiumIterator::over(spec_array_as_slice(obj))
    }
}

impl<'a, T> From<&'a Vec<T>> for SpatiumIterator<'a, T> {
    fn from(obj: &'a Vec<T>) -> (view: Self)
        ensures
            view@ == obj@,
    {
        let items: &'a [T] = obj.as_slice();
        assert(items =~= (choose|items: &'a [T]| items@ == obj@));
        SpatiumIterator { source: Source::Borrowed(items), position: 0 }
    }
}

impl<'a, T> FromSpecImpl<&'a Vec<T>> for SpatiumIterator<'a, T> {
    open spec fn obeys_from_spec() -> bool {
        true
    }

    open spec fn from_spec(obj: &'a Vec<T>) -> Self {
        SpatiumIterator::over(choose|items: &'a [T]| items@ == obj@)
    }
}

/// Decoding walks the whole text: the cost of this conversion grows with
/// the length of the text.
impl<'a> From<&'a str> for SpatiumIterator<'a, char> {
    fn from(obj: &'a str) -> (view: Self)
        ensures
            view@ == obj@,
    {
        SpatiumIterator { source: Source::Decoded(decode(obj)), position: 0 }
    }
}

/// The view owns the buffer of decoded characters, and two buffers with the
/// same characters are not known to be the same value: `from_spec` says
/// which elements the view has, and `from` promises those elements only.
impl<'a> FromSpecImpl<&'a str> for SpatiumIterator<'a, char> {
    open spec fn obeys_from_spec() -> bool {
        false
    }

    open spec fn from_spec(obj: &'a str) -> Self {
        choose|view: Self| view@ == obj@
    }
}

/// Decoding walks the whole text: the cost of this conversion grows with
/// the length of the text.
impl<'a> From<&'a String> for SpatiumIterator<'a, char> {
    fn from(obj: &'a String) -> (view: Self)
        ensures
            view@ == obj@,
    {
        SpatiumIterator { source: Source::Decoded(decode(obj.as_str())), position: 0 }
    }
}

/// As for `&str`: `from` promises the elements of the view only.
impl<'a> FromSpecImpl<&'a String> for SpatiumIterator<'a, char> {
    open spec fn obeys_from_spec() -> bool {
        false
    }

    open spec fn from_spec(obj: &'a String) -> Self {
        choose|view: Self| view@ == obj@
    }
}

} // verus!
