use crate::types::source::{decode, Source};
use vstd::array::{array_as_slice, spec_array_as_slice};
use vstd::prelude::*;
use vstd::std_specs::convert::FromSpecImpl;

verus! {

/// A one-pass, forward view over the elements of a sequence that also says,
/// without consuming anything, how many elements the sequence has.
///
/// The view borrows arrays, slices and vectors, whose length is at hand. A
/// text is decoded into its characters when the view is made, which costs a
/// pass over the text; the length of such a view is the number of
/// characters, not of bytes.
pub struct SpatiumExactSizeIterator<'a, T> {
    source: Source<'a, T>,
    position: usize,
    len: usize,
}

impl<'a, T> View for SpatiumExactSizeIterator<'a, T> {
    type V = Seq<T>;

    /// The elements that the view has yet to yield, in order.
    closed spec fn view(&self) -> Seq<T> {
        self.source.elements().skip(self.position as int)
    }
}

impl<'a, T> SpatiumExactSizeIterator<'a, T> {
    #[verifier::type_invariant]
    spec fn position_in_range(self) -> bool {
        self.position <= self.source.elements().len() && self.len == self.source.elements().len()
    }

    /// The number of elements of the sequence that the view was made from:
    /// those already yielded and those yet to come.
    pub closed spec fn spec_len(&self) -> usize {
        self.len
    }

    /// The number of elements that the view has yielded so far.
    pub closed spec fn yielded(&self) -> nat {
        self.position as nat
    }

    /// A view at the start of `items`.
    pub closed spec fn over(items: &'a [T]) -> Self {
        SpatiumExactSizeIterator {
            source: Source::Borrowed(items),
            position: 0,
            len: items@.len() as usize,
        }
    }

    /// No element was yielded yet, and the length counts what is to come.
    pub open spec fn is_fresh(&self) -> bool {
        self.yielded() == 0 && self.spec_len() == self@.len()
    }

    /// The number of elements of the sequence that the view was made from.
    /// It does not change as elements are yielded.
    #[verifier::when_used_as_spec(spec_len)]
    pub fn len(&self) -> (len: usize)
        ensures
            len == self.spec_len(),
            len == self.yielded() + self@.len(),
    {
        proof {
            use_type_invariant(self);
        }
        self.len
    }

    /// Yields the next element and moves past it, or `None` once every
    /// element was yielded.
    pub fn next(&mut self) -> (element: Option<&T>)
        ensures
            final(self).spec_len() == old(self).spec_len(),
            match element {
                Some(e) => {
                    &&& old(self)@.len() > 0
                    &&& *e == old(self)@[0]
                    &&& final(self)@ == old(self)@.drop_first()
                    &&& final(self).yielded() == old(self).yielded() + 1
                },
                None => {
                    &&& old(self)@.len() == 0
                    &&& final(self)@ == old(self)@
                    &&& final(self).yielded() == old(self).yielded()
                },
            },
    {
        proof {
            use_type_invariant(&*self);
        }
        let index: usize = self.position;
        if index < self.source.len() {
            self.position = index + 1;
            assert(self.source.elements().skip(index as int).drop_first()
                == self.source.elements().skip(index + 1));
            Some(self.source.get(index))
        } else {
            None
        }
    }
}

impl<'a, T> From<&'a [T]> for SpatiumExactSizeIterator<'a, T> {
    fn from(obj: &'a [T]) -> (view: Self)
        ensures
            view@ == obj@,
            view.is_fresh(),
    {
        SpatiumExactSizeIterator { source: Source::Borrowed(obj), position: 0, len: obj.len() }
    }
}

impl<'a, T> FromSpecImpl<&'a [T]> for SpatiumExactSizeIterator<'a, T> {
    open spec fn obeys_from_spec() -> bool {
        true
    }

    open spec fn from_spec(obj: &'a [T]) -> Self {
        SpatiumExactSizeIterator::over(obj)
    }
}

impl<'a, T, const K: usize> From<&'a [T; K]> for SpatiumExactSizeIterator<'a, T> {
    fn from(obj: &'a [T; K]) -> (view: Self)
        ensures
            view@ == obj@,
            view.is_fresh(),
    {
        let items: &'a [T] = array_as_slice(obj);
        SpatiumExactSizeIterator { source: Source::Borrowed(items), position: 0, len: items.len() }
    }
}

impl<'a, T, const K: usize> FromSpecImpl<&'a [T; K]> for SpatiumExactSizeIterator<'a, T> {
    open spec fn obeys_from_spec() -> bool {
        true
    }

    open spec fn from_spec(obj: &'a [T; K]) -> Self {
        SpatiumExactSizeIterator::over(spec_array_as_slice(obj))
    }
}

impl<'a, T> From<&'a Vec<T>> for SpatiumExactSizeIterator<'a, T> {
    fn from(obj: &'a Vec<T>) -> (view: Self)
        ensures
            view@ == obj@,
            view.is_fresh(),
    {
        let items: &'a [T] = obj.as_slice();
        assert(items =~= (choose|items: &'a [T]| items@ == obj@));
        SpatiumExactSizeIterator { source: Source::Borrowed(items), position: 0, len: items.len() }
    }
}

impl<'a, T> FromSpecImpl<&'a Vec<T>> for SpatiumExactSizeIterator<'a, T> {
    open spec fn obeys_from_spec() -> bool {
        true
    }

    open spec fn from_spec(obj: &'a Vec<T>) -> Self {
        SpatiumExactSizeIterator::over(choose|items: &'a [T]| items@ == obj@)
    }
}

/// Decoding walks the whole text: the cost of this conversion, and so of
/// learning the length, grows with the length of the text.
impl<'a> From<&'a str> for SpatiumExactSizeIterator<'a, char> {
    fn from(obj: &'a str) -> (view: Self)
        ensures
            view@ == obj@,
            view.is_fresh(),
    {
        let characters = decode(obj);
        let len: usize = characters.len();
        SpatiumExactSizeIterator { source: Source::Decoded(characters), position: 0, len }
    }
}

/// The view owns the buffer of decoded characters, and two buffers with the
/// same characters are not known to be the same value: `from_spec` says
/// which elements the view has, and `from` promises those elements only.
impl<'a> FromSpecImpl<&'a str> for SpatiumExactSizeIterator<'a, char> {
    open spec fn obeys_from_spec() -> bool {
        false
    }

    open spec fn from_spec(obj: &'a str) -> Self {
        choose|view: Self| view@ == obj@ && view.is_fresh()
    }
}

/// Decoding walks the whole text: the cost of this conversion, and so of
/// learning the length, grows with the length of the text.
impl<'a> From<&'a String> for SpatiumExactSizeIterator<'a, char> {
    fn from(obj: &'a String) -> (view: Self)
        ensures
            view@ == obj@,
            view.is_fresh(),
    {
        let characters = decode(obj.as_str());
        let len: usize = characters.len();
        SpatiumExactSizeIterator { source: Source::Decoded(characters), position: 0, len }
    }
}

/// As for `&str`: `from` promises the elements of the view only.
impl<'a> FromSpecImpl<&'a String> for SpatiumExactSizeIterator<'a, char> {
    open spec fn obeys_from_spec() -> bool {
        false
    }

    open spec fn from_spec(obj: &'a String) -> Self {
        choose|view: Self| view@ == obj@ && view.is_fresh()
    }
}

/// The name under which a view that knows its length is also known.
pub type SpatiumIteratorWithLen<'a, T> = SpatiumExactSizeIterator<'a, T>;

} // verus!
