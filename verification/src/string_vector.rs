use vstd::prelude::*;
use vstd::utf8::encode_utf8;
use crate::c_string::has_null;
use crate::error::{Error, ErrorKind, ErrorView};
use crate::utils::find_null;

verus! {

/// What copying one string out of the native vector gave: the characters of
/// the string, or the error.
pub type EntryView = Result<Seq<char>, ErrorView>;

/// One entry by the characters of its string, or by its error.
pub open spec fn entry_view(entry: Result<String, Error>) -> EntryView {
    match entry {
        Ok(text) => Ok(text@),
        Err(error) => Err(error@),
    }
}

/// True when the entry stands for no string at all: the native library
/// throws a `std::exception` when it is asked for an index past the end.
pub open spec fn is_absent(entry: EntryView) -> bool {
    entry matches Err(error) && error.kind == ErrorKind::StdExcept
}

/// The entries in front of the first absent one.
pub open spec fn present(entries: Seq<EntryView>) -> Seq<EntryView>
    decreases entries.len(),
{
    if entries.len() == 0 || is_absent(entries[0]) {
        Seq::empty()
    } else {
        seq![entries[0]] + present(entries.skip(1))
    }
}

/// The strings among the entries in front of the first absent one, in
/// order. An entry that is an error is passed over.
pub open spec fn collected(entries: Seq<EntryView>) -> Seq<Seq<char>>
    decreases entries.len(),
{
    if entries.len() == 0 || is_absent(entries[0]) {
        Seq::empty()
    } else {
        match entries[0] {
            Ok(text) => seq![text] + collected(entries.skip(1)),
            Err(_) => collected(entries.skip(1)),
        }
    }
}

/// The strings of a native vector of strings, as copying each of them out
/// gave it.
#[derive(Debug)]
pub struct StringVector {
    entries: Vec<Result<String, Error>>,
}

impl View for StringVector {
    type V = Seq<EntryView>;

    /// The entries, in order.
    closed spec fn view(&self) -> Seq<EntryView> {
        Seq::new(self.entries@.len(), |i: int| entry_view(self.entries@[i]))
    }
}

impl StringVector {
    /// What `get` gives at an index: the entry there, unless the index is
    /// past the end or the entry is absent.
    pub open spec fn spec_get(self, index: int) -> Option<EntryView> {
        if 0 <= index < self@.len() && !is_absent(self@[index]) {
            Some(self@[index])
        } else {
            None
        }
    }

    /// Creates a new empty string vector
    pub fn new() -> (vector: Self)
        ensures
            vector@ == Seq::<EntryView>::empty(),
    {
        let vector = StringVector { entries: Vec::new() };
        vector
    }

    /// Returns the number of strings in this vector
    pub fn len(&self) -> (length: usize)
        ensures
            length == self@.len(),
    {
        self.entries.len()
    }

    /// Appends a string to the end of this vector
    ///
    /// This function returns an error if the provided value contains a null byte.
    pub fn push(&mut self, value: String) -> (result: Result<(), Error>)
        ensures
            result is Ok <==> !has_null(encode_utf8(value@)),
            result is Ok ==> final(self)@ == old(self)@.push(Ok(value@)),
            result is Err ==> final(self)@ == old(self)@,
            result is Err ==> result->Err_0@ == (ErrorView {
                kind: ErrorKind::NullByte,
                message: None,
            }),
    {
        match find_null(value.as_str().as_bytes()) {
            Some(_) => Err(Error::NullByte(None)),
            None => {
                self.push_copied(Ok(value));
                Ok(())
            },
        }
    }

    /// Appends what copying the next string out of the native vector gave.
    pub fn push_copied(&mut self, copied: Result<String, Error>)
        ensures
            final(self)@ == old(self)@.push(entry_view(copied)),
    {
        self.entries.push(copied);
    }

    /// Returns the entry at an index: the string there or the error that
    /// copying it gave. There is none past the end, and none where the entry
    /// is a `StdExcept` error.
    pub fn get(&self, index: usize) -> (entry: Option<Result<String, Error>>)
        ensures
            entry is Some <==> self.spec_get(index as int) is Some,
            entry is Some ==> Some(entry_view(entry->0)) == self.spec_get(index as int),
    {
        if index >= self.entries.len() {
            return None;
        }
        match &self.entries[index] {
            Ok(value) => Some(Ok(value.clone())),
            Err(e) => match e.kind() {
                ErrorKind::StdExcept => {
                    // This is most likely an std::out_of_range because the index was >= length.
                    None
                },
                _ => Some(Err(e.clone())),
            },
        }
    }

    /// Returns an iterator over the items in this vector
    pub fn iter(&self) -> (iter: Iter<'_>)
        ensures
            iter.spec_vector() == self@,
            iter.spec_position() == 0,
    {
        Iter { vector: self, next: 0, length: self.len() }
    }

    /// Returns the strings of this vector, in order, up to the first absent
    /// entry. Entries that are errors are passed over.
    pub fn to_strings(&self) -> (strings: Vec<String>)
        ensures
            strings.deep_view() == collected(self@),
    {
        let mut strings: Vec<String> = Vec::new();
        let mut i: usize = 0;
        proof {
            assert(self@.skip(0) =~= self@);
        }
        while i < self.entries.len()
            invariant
                0 <= i <= self@.len(),
                self@.len() == self.entries@.len(),
                strings.deep_view() + collected(self@.skip(i as int)) == collected(self@),
            decreases self@.len() - i,
        {
            let ghost rest = self@.skip(i as int);
            proof {
                assert(rest.skip(1) =~= self@.skip(i as int + 1));
            }
            match self.get(i) {
                None => {
                    return strings;
                },
                Some(Ok(value)) => {
                    strings.push(value);
                },
                Some(Err(_)) => {},
            }
            i += 1;
        }
        strings
    }
}

impl From<StringVector> for Vec<String> {
    /// The strings of the vector, as `to_strings` gives them.
    fn from(strings: StringVector) -> (collected_strings: Vec<String>)
        ensures
            collected_strings.deep_view() == collected(strings@),
    {
        strings.to_strings()
    }
}

impl vstd::std_specs::convert::FromSpecImpl<StringVector> for Vec<String> {
    open spec fn obeys_from_spec() -> bool {
        false
    }

    open spec fn from_spec(strings: StringVector) -> Vec<String> {
        arbitrary()
    }
}

impl From<&StringVector> for Vec<String> {
    /// The strings of the vector, as `to_strings` gives them.
    fn from(strings: &StringVector) -> (collected_strings: Vec<String>)
        ensures
            collected_strings.deep_view() == collected(strings@),
    {
        strings.to_strings()
    }
}

impl vstd::std_specs::convert::FromSpecImpl<&StringVector> for Vec<String> {
    open spec fn obeys_from_spec() -> bool {
        false
    }

    open spec fn from_spec(strings: &StringVector) -> Vec<String> {
        arbitrary()
    }
}

/// An iterator over items in a string vector
#[derive(Debug)]
pub struct Iter<'v> {
    /// Vector being iterated over
    vector: &'v StringVector,
    /// Index of next item to yield
    next: usize,
    /// Number of items in vector
    length: usize,
}

impl<'v> View for Iter<'v> {
    type V = Seq<EntryView>;

    /// The entries that are still to come, in order: those from the
    /// position on, up to the first absent one.
    open spec fn view(&self) -> Seq<EntryView> {
        present(self.spec_vector().skip(self.spec_position() as int))
    }
}

impl<'v> Iter<'v> {
    #[verifier::type_invariant]
    closed spec fn wf(self) -> bool {
        self.next <= self.length && self.length == self.vector@.len()
    }

    /// The entries of the vector being iterated over.
    pub closed spec fn spec_vector(self) -> Seq<EntryView> {
        self.vector@
    }

    /// The index of the next entry to yield.
    pub closed spec fn spec_position(self) -> nat {
        self.next as nat
    }

    /// Yields the next entry, or `None` at the end of the vector and at an
    /// absent entry, where the iterator stays.
    pub fn next(&mut self) -> (item: Option<Result<String, Error>>)
        ensures
            final(self).spec_vector() == old(self).spec_vector(),
            old(self)@.len() == 0 ==> item is None && final(self).spec_position() == old(
                self,
            ).spec_position(),
            old(self)@.len() > 0 ==> item is Some && entry_view(item->0) == old(self)@[0]
                && final(self).spec_position() == old(self).spec_position() + 1,
            final(self)@ == (if old(self)@.len() == 0 {
                old(self)@
            } else {
                old(self)@.skip(1)
            }),
    {
        proof {
            use_type_invariant(&*self);
        }
        let ghost rest = self.vector@.skip(self.next as int);
        if self.next == self.length {
            None
        } else {
            proof {
                assert(rest.skip(1) =~= self.vector@.skip(self.next as int + 1));
            }
            match self.vector.get(self.next) {
                None => None,
                Some(item) => {
                    self.next += 1;
                    Some(item)
                },
            }
        }
    }

    /// Returns the number of entries from the position to the end of the
    /// vector, as the lower and the upper bound.
    pub fn size_hint(&self) -> (hint: (usize, Option<usize>))
        ensures
            hint.0 == self.spec_vector().len() - self.spec_position(),
            hint.1 == Some(hint.0),
    {
        proof {
            use_type_invariant(self);
        }
        let size: usize = self.length - self.next;
        (size, Some(size))
    }

    /// Returns the number of entries from the position to the end of the
    /// vector.
    pub fn count(self) -> (remaining: usize)
        ensures
            remaining == self.spec_vector().len() - self.spec_position(),
    {
        proof {
            use_type_invariant(&self);
        }
        self.length - self.next
    }
}

} // verus!
