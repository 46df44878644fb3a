//! Block ingestion: the cursor a Firehose stream resumes from, and the
//! interface of a chain's block ingestor.
use vstd::prelude::*;

verus! {

/// Where a Firehose block stream resumes; no cursor means from the start.
/// An empty cursor string counts as no cursor.
#[derive(Debug, Clone)]
pub struct FirehoseCursor(Option<String>);

impl View for FirehoseCursor {
    type V = Option<Seq<char>>;

    closed spec fn view(&self) -> Option<Seq<char>> {
        match &self.0 {
            Some(s) => Some(s@),
            None => None,
        }
    }
}

/// The cursor a string gives: none for the empty string.
pub open spec fn cursor_of(s: Seq<char>) -> Option<Seq<char>> {
    if s.len() == 0 {
        None
    } else {
        Some(s)
    }
}

/// A cursor read back as text gives the text it was made from, and only the
/// empty text makes no cursor.
pub proof fn law_cursor_text(s: Seq<char>)
    ensures
        (match cursor_of(s) {
            Some(t) => t,
            None => Seq::<char>::empty(),
        }) == s,
        cursor_of(s) is None <==> s.len() == 0,
{
}

impl FirehoseCursor {
    /// No cursor.
    pub fn none() -> (r: Self)
        ensures
            r@ == None::<Seq<char>>,
    {
        FirehoseCursor(None)
    }

    /// Whether there is no cursor.
    pub fn is_none(&self) -> (r: bool)
        ensures
            r == (self@ is None),
    {
        self.0.is_none()
    }

    /// The cursor as text: empty when there is none.
    pub fn to_string(&self) -> (r: String)
        ensures
            r@ == match self@ {
                Some(s) => s,
                None => Seq::<char>::empty(),
            },
    {
        match &self.0 {
            Some(s) => s.clone(),
            None => String::new(),
        }
    }

    /// The cursor itself.
    pub fn as_ref(&self) -> (r: &Option<String>)
        ensures
            match r {
                Some(s) => self@ == Some(s@),
                None => self@ is None,
            },
    {
        &self.0
    }
}

impl From<String> for FirehoseCursor {
    fn from(cursor: String) -> (r: Self)
        ensures
            r@ == cursor_of(cursor@),
    {
        if cursor.as_str().is_empty() {
            FirehoseCursor(None)
        } else {
            FirehoseCursor(Some(cursor))
        }
    }
}

impl vstd::std_specs::convert::FromSpecImpl<String> for FirehoseCursor {
    open spec fn obeys_from_spec() -> bool {
        true
    }

    closed spec fn from_spec(cursor: String) -> Self {
        if cursor@.len() == 0 {
            FirehoseCursor(None)
        } else {
            FirehoseCursor(Some(cursor))
        }
    }
}

impl From<Option<String>> for FirehoseCursor {
    fn from(cursor: Option<String>) -> (r: Self)
        ensures
            r@ == match cursor {
                Some(s) => cursor_of(s@),
                None => None,
            },
    {
        match cursor {
            None => FirehoseCursor(None),
            Some(s) => FirehoseCursor::from(s),
        }
    }
}

impl vstd::std_specs::convert::FromSpecImpl<Option<String>> for FirehoseCursor {
    open spec fn obeys_from_spec() -> bool {
        true
    }

    closed spec fn from_spec(cursor: Option<String>) -> Self {
        match cursor {
            Some(s) => if s@.len() == 0 {
                FirehoseCursor(None)
            } else {
                FirehoseCursor(Some(s))
            },
            None => FirehoseCursor(None),
        }
    }
}

/// A chain's block ingestor: it runs the ingestion loop and names the
/// network it serves.
pub trait BlockIngestor {
    /// The name of the network whose blocks are ingested.
    fn network_name(&self) -> String;
}

} // verus!
