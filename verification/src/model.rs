use vstd::prelude::*;

verus! {

/// One formatted text run of a title. Only the plain-text variant is
/// consumed by this library; every other run kind the remote schema may
/// grow is `Unsupported`, and meeting one is a reported failure, never a
/// silent loss.
#[derive(Debug)]
pub enum RichText {
    Text { content: String },
    Unsupported,
}

/// One field's value together with its declared type. Only the `Title`
/// variant is read here; the remote schema's other value kinds (select,
/// date, and so on) are opaque to this library and collapse to
/// `Unsupported`.
#[derive(Debug)]
pub enum PropertyValue {
    Title { title: Vec<RichText> },
    Unsupported,
}

/// One entry returned by a database-style query: a mapping from property
/// name to value, held as an association list. Keys are expected to be
/// unique; a lookup takes the first binding of a name.
#[derive(Debug)]
pub struct Record {
    pub properties: Vec<(String, PropertyValue)>,
}

/// An ordered sequence of fetched records. Only the first element is ever
/// consulted; a non-empty remainder is ignored, not an error.
#[derive(Debug)]
pub struct QueryResult {
    pub results: Vec<Record>,
}

} // verus!
