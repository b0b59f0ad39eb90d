use vstd::prelude::*;
use crate::citation::CitationError;

verus! {

/// What the regex crate finds in `text` for `pattern`: `None` when `pattern`
/// does not compile; otherwise the text of the first capture group in each
/// successive non-overlapping match, leftmost first (empty where there is
/// no such group or it took no part in a match).
pub uninterp spec fn regex_group_captures(pattern: Seq<char>, text: Seq<char>) -> Option<
    Seq<Seq<char>>,
>;

/// Relies on regex::Regex::new and Regex::captures_iter: compiles `pattern`
/// and collects the first group of every match in `text`, in order.
#[verifier::external_body]
fn first_group_captures(pattern: &str, text: &str) -> (r: Option<Vec<String>>)
    ensures
        r.deep_view() == regex_group_captures(pattern@, text@),
{
    let re = regex::Regex::new(pattern).ok()?;
    Some(re.captures_iter(text).map(|caps| caps.get(1).map_or(String::new(), |m| m.as_str().to_string())).collect())
}

/// What yaml_front_matter reads from the header block of `document`: the
/// string stored under `field` in the header's mapping, or `None` where the
/// header does not parse or holds no string under `field`.
pub uninterp spec fn front_matter_string(document: Seq<char>, field: Seq<char>) -> Option<
    Seq<char>,
>;

/// Relies on yaml_front_matter::YamlFrontMatter::parse (into a
/// serde_json::Value), then on Value::get and Value::as_str: the header's
/// string under `field`.
#[verifier::external_body]
fn front_matter_field(document: &str, field: &str) -> (r: Option<String>)
    ensures
        r.deep_view() == front_matter_string(document@, field@),
{
    let header = yaml_front_matter::YamlFrontMatter::parse::<serde_json::Value>(document).ok()?;
    header.metadata.get(field).and_then(serde_json::Value::as_str).map(String::from)
}

/// `s` with every occurrence of `from` replaced by `to`.
pub open spec fn replaced(s: Seq<char>, from: char, to: Seq<char>) -> Seq<char>
    decreases s.len(),
{
    if s.len() == 0 {
        s
    } else {
        replaced(s.drop_last(), from, to) + if s.last() == from {
            to
        } else {
            seq![s.last()]
        }
    }
}

/// Relies on str::replace with a character pattern: every occurrence of
/// `from` is replaced by `to`.
#[verifier::external_body]
fn replace_char(text: &str, from: char, to: &str) -> (r: String)
    ensures
        r@ == replaced(text@, from, to@),
{
    text.replace(from, to)
}

/// The pattern of an in-text citation: `@`, then a key made of word
/// characters, a dot, a four-digit year and an optional trailing character;
/// its first group is the key.
pub open spec fn key_pattern() -> Seq<char> {
    "@(?<key>\\w+\\.\\d{4}\\w?)"@
}

/// The citation keys of `text`, in order of appearance, repeats kept, or
/// `None` where the pattern is refused.
pub open spec fn document_keys(text: Seq<char>) -> Option<Seq<Seq<char>>> {
    regex_group_captures(key_pattern(), text)
}

/// Extracts the citation keys cited in a document, in order of appearance.
///
/// Each `@` followed by a key yields that key without the `@`; a key cited
/// twice appears twice. Text that only resembles a citation is skipped.
pub fn get_citations_document(document: &str) -> (r: Result<Vec<String>, CitationError>)
    ensures
        r is Ok <==> document_keys(document@) is Some,
        r matches Ok(v) ==> Some(v.deep_view()) == document_keys(document@),
        r matches Err(e) ==> e == CitationError::InvalidKeyPattern,
{
    let pattern = "@(?<key>\\w+\\.\\d{4}\\w?)";
    assert(pattern@ == key_pattern());
    match first_group_captures(pattern, document) {
        Some(keys) => Ok(keys),
        None => Err(CitationError::InvalidKeyPattern),
    }
}

/// The header field that names the bibliography file.
pub open spec fn bibliography_field() -> Seq<char> {
    "bibliography"@
}

/// The text in which the header is read: each tab becomes two spaces, since
/// YAML does not indent with tabs.
pub open spec fn header_text(document: Seq<char>) -> Seq<char> {
    replaced(document, '\t', "  "@)
}

/// The bibliography path that the document's header names.
pub fn get_bibliography_path(document: &str) -> (r: Result<String, CitationError>)
    ensures
        r is Ok <==> front_matter_string(header_text(document@), bibliography_field()) is Some,
        r matches Ok(p) ==> Some(p@) == front_matter_string(
            header_text(document@),
            bibliography_field(),
        ),
        r matches Err(e) ==> e == CitationError::MissingBibliographyReference,
{
    let spaces = "  ";
    assert(spaces@ == "  "@);
    let clean = replace_char(document, '\t', spaces);
    let field = "bibliography";
    assert(field@ == bibliography_field());
    match front_matter_field(clean.as_str(), field) {
        Some(path) => Ok(path),
        None => Err(CitationError::MissingBibliographyReference),
    }
}

} // verus!
