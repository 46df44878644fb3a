//! Immutable words of text used as names and values.
use vstd::prelude::*;

verus! {

/// An immutable string.
#[derive(Clone, Default, Debug, PartialOrd, Ord, PartialEq, Eq, Hash)]
pub struct Word(String);

impl View for Word {
    type V = Seq<char>;

    closed spec fn view(&self) -> Seq<char> {
        self.0@
    }
}

impl Word {
    /// The text of the word.
    pub fn as_str(&self) -> (r: &str)
        ensures
            r@ == self@,
    {
        self.0.as_str()
    }

    /// The text of the word, as a new string.
    pub fn to_string(&self) -> (r: String)
        ensures
            r@ == self@,
    {
        self.0.clone()
    }

    /// Whether the word is the text `other`.
    pub fn eq_str(&self, other: &str) -> (r: bool)
        ensures
            r == (self@ == other@),
    {
        let o = other.to_owned();
        self.0 == o
    }

    /// The word of `s`.
    pub fn from_str(s: &str) -> (r: Word)
        ensures
            r@ == s@,
    {
        Word(s.to_owned())
    }
}

impl From<String> for Word {
    fn from(s: String) -> (r: Word)
        ensures
            r@ == s@,
    {
        Word(s)
    }
}

impl vstd::std_specs::convert::FromSpecImpl<String> for Word {
    open spec fn obeys_from_spec() -> bool {
        true
    }

    closed spec fn from_spec(s: String) -> Word {
        Word(s)
    }
}

impl From<Word> for String {
    fn from(w: Word) -> (r: String)
        ensures
            r@ == w@,
    {
        w.0
    }
}

impl vstd::std_specs::convert::FromSpecImpl<Word> for String {
    open spec fn obeys_from_spec() -> bool {
        true
    }

    closed spec fn from_spec(w: Word) -> String {
        w.0
    }
}

} // verus!
