use vstd::prelude::*;
use crate::citation::{keys_of, CitationError, Citations};

verus! {

#[verifier::external_type_specification]
#[verifier::external_body]
pub struct ExJsonError(serde_json::Error);

/// What serde_json reads from `text` as an array of records: `None` when
/// `text` is not one JSON array; otherwise, for each element in order, the
/// string stored under `field` when the element is an object holding a
/// string there, and `None` for that element otherwise.
pub uninterp spec fn json_record_fields(text: Seq<char>, field: Seq<char>) -> Option<
    Seq<Option<Seq<char>>>,
>;

/// Relies on serde_json::from_str (into a vector of serde_json::Value), then
/// on Value::get and Value::as_str for each element: the array's elements in
/// order, each reduced to the string under `field`, if any.
#[verifier::external_body]
fn read_record_fields(text: &str, field: &str) -> (r: Result<Vec<Option<String>>, serde_json::Error>)
    ensures
        r is Ok <==> json_record_fields(text@, field@) is Some,
        r matches Ok(v) ==> json_record_fields(text@, field@) == Some(v.deep_view()),
{
    let items: Vec<serde_json::Value> = serde_json::from_str(text)?;
    Ok(items.iter().map(|item| item.get(field).and_then(serde_json::Value::as_str).map(String::from)).collect())
}

/// The name under which a record stores its citation key.
pub open spec fn citation_key_field() -> Seq<char> {
    "citation-key"@
}

/// Whether every record of a decoded array carries its citation key.
pub open spec fn all_keyed(fields: Seq<Option<Seq<char>>>) -> bool {
    forall|i: int| 0 <= i < fields.len() ==> fields[i] is Some
}

/// The citation keys that a bibliography payload holds, in array order, or
/// `None` where it is no JSON array or one of its records lacks a string key.
pub open spec fn bibliography_keys(text: Seq<char>) -> Option<Seq<Seq<char>>> {
    match json_record_fields(text, citation_key_field()) {
        Some(fields) => if all_keyed(fields) {
            Some(fields.map_values(|f: Option<Seq<char>>| f->0))
        } else {
            None
        },
        None => None,
    }
}

/// The records of a decoded array, given for each element the string under
/// its citation-key field, if any: one record per element, in order, or
/// `MalformedBibliography` where an element has no key.
pub fn citations_from_fields(fields: Vec<Option<String>>) -> (r: Result<
    Vec<Citations>,
    CitationError,
>)
    ensures
        r is Ok <==> all_keyed(fields.deep_view()),
        r matches Ok(v) ==> v@.len() == fields@.len(),
        r matches Ok(v) ==> keys_of(v@) == fields.deep_view().map_values(
            |f: Option<Seq<char>>| f->0,
        ),
        r matches Err(e) ==> e == CitationError::MalformedBibliography,
{
    let ghost model = fields.deep_view();
    let mut out: Vec<Citations> = Vec::new();
    let mut i: usize = 0;
    while i < fields.len()
        invariant
            i <= fields.len(),
            model == fields.deep_view(),
            out@.len() == i,
            forall|t: int| 0 <= t < i ==> model[t] == Some(#[trigger] out@[t]@),
        decreases fields.len() - i,
    {
        match &fields[i] {
            Some(key) => {
                out.push(Citations { citation_key: key.clone() });
            },
            None => {
                assert(model[i as int] is None);
                assert(!all_keyed(model));
                return Err(CitationError::MalformedBibliography);
            },
        }
        i += 1;
    }
    assert(all_keyed(model)) by {
        assert forall|t: int| 0 <= t < model.len() implies model[t] is Some by {
            assert(model[t] == Some(out@[t]@));
        }
    }
    assert(keys_of(out@) =~= model.map_values(|f: Option<Seq<char>>| f->0));
    Ok(out)
}

/// Decodes a bibliography payload, a JSON array of records, into its records.
///
/// Fields other than the citation key are ignored. Each element of the array
/// gives one record, in array order.
pub fn get_citations_bibliography(bibliography: &str) -> (r: Result<Vec<Citations>, CitationError>)
    ensures
        r is Ok <==> bibliography_keys(bibliography@) is Some,
        r matches Ok(v) ==> Some(keys_of(v@)) == bibliography_keys(bibliography@),
        r matches Ok(v) ==> v@.len() == json_record_fields(bibliography@, citation_key_field())->0.len(),
        r matches Err(e) ==> e == CitationError::MalformedBibliography,
{
    let field = "citation-key";
    assert(field@ == citation_key_field());
    match read_record_fields(bibliography, field) {
        Ok(fields) => {
            assert(fields.deep_view().len() == fields@.len());
            citations_from_fields(fields)
        },
        Err(_) => Err(CitationError::MalformedBibliography),
    }
}

} // verus!
