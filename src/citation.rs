use vstd::prelude::*;

verus! {

/// One bibliography record, reduced to the only attribute the checker reads.
#[derive(Clone, Debug, PartialEq, Eq, Hash)]
pub struct Citations {
    pub citation_key: String,
}

impl View for Citations {
    type V = Seq<char>;

    /// A record is seen as its citation key.
    open spec fn view(&self) -> Seq<char> {
        self.citation_key@
    }
}

impl Citations {
    /// The text that a report shows for this record: its citation key.
    pub fn to_string(&self) -> (r: String)
        ensures
            r@ == self@,
    {
        self.citation_key.clone()
    }
}

/// Why a run of the checker stops without a result.
#[derive(Clone, Copy, Debug, PartialEq, Eq)]
pub enum CitationError {
    /// The document or the bibliography could not be read.
    InputRead,
    /// The bibliography is not an array of records that each carry a string
    /// citation key.
    MalformedBibliography,
    /// No bibliography was given, and the document's header names none.
    MissingBibliographyReference,
    /// The citation-key pattern was refused by the regular-expression engine.
    InvalidKeyPattern,
}

/// The citation keys of a sequence of records, in order.
pub open spec fn keys_of(entries: Seq<Citations>) -> Seq<Seq<char>> {
    entries.map_values(|c: Citations| c@)
}

} // verus!
