//! The persisted snapshot: a JSON object with a single member `urls`, whose
//! value is an object that maps each short code to its target URL.
//!
//! Reading and writing JSON is serde_json's work. This module says how the
//! registry's entries are framed in such a document and found in it again.
//! A snapshot is read in two steps: first the object's members, each as a
//! JSON value of any kind, then the value of `urls` as an object of strings.
//! Members other than `urls` are therefore never looked into.

use std::collections::BTreeMap;
use vstd::prelude::*;

verus! {

/// A list of (code, URL) pairs, as characters.
pub type Entries = Seq<(Seq<char>, Seq<char>)>;

/// The members of a JSON object whose values are objects of strings.
pub type Document = Map<Seq<char>, Map<Seq<char>, Seq<char>>>;

/// The members of a JSON object as they are read: each name with what its
/// value holds as an object of strings, or `None` where the value is
/// something else.
pub type ReadDocument = Map<Seq<char>, Option<Map<Seq<char>, Seq<char>>>>;

/// The codes of `entries`, in order.
pub open spec fn codes_of(entries: Entries) -> Seq<Seq<char>> {
    entries.map_values(|entry: (Seq<char>, Seq<char>)| entry.0)
}

/// The mapping that results from storing `entries` one after the other:
/// where a code occurs more than once, its last URL stays.
pub open spec fn entries_map(entries: Entries) -> Map<Seq<char>, Seq<char>>
    decreases entries.len(),
{
    if entries.len() == 0 {
        Map::empty()
    } else {
        entries_map(entries.drop_last()).insert(entries.last().0, entries.last().1)
    }
}

/// `entries` enumerates `urls`: every pair of the mapping occurs exactly once
/// and nothing else does.
pub open spec fn is_listing_of(entries: Entries, urls: Map<Seq<char>, Seq<char>>) -> bool {
    &&& codes_of(entries).no_duplicates()
    &&& forall|i: int|
        0 <= i < entries.len() ==> urls.contains_pair(
            (#[trigger] entries[i]).0,
            entries[i].1,
        )
    &&& forall|code: Seq<char>| urls.contains_key(code) ==> codes_of(entries).contains(code)
}

/// A listing of a mapping stores back to that mapping.
pub proof fn lemma_listing_stores_back(entries: Entries, urls: Map<Seq<char>, Seq<char>>)
    requires
        is_listing_of(entries, urls),
    ensures
        entries_map(entries) == urls,
        entries.len() == urls.len(),
        urls.dom().finite(),
    decreases entries.len(),
{
    if entries.len() == 0 {
        assert(urls =~= Map::empty());
    } else {
        let last = entries.last();
        let rest = entries.drop_last();
        let fewer = urls.remove(last.0);
        assert(codes_of(rest) =~= codes_of(entries).drop_last());
        assert forall|i: int| 0 <= i < rest.len() implies fewer.contains_pair(
            (#[trigger] rest[i]).0,
            rest[i].1,
        ) by {
            assert(rest[i] == entries[i]);
            assert(codes_of(entries)[i] == entries[i].0);
            assert(codes_of(entries)[entries.len() - 1] == last.0);
        }
        assert forall|code: Seq<char>| fewer.contains_key(code) implies codes_of(rest).contains(
            code,
        ) by {
            let i = choose|i: int| 0 <= i < entries.len() && codes_of(entries)[i] == code;
            assert(codes_of(rest)[i] == code);
        }
        lemma_listing_stores_back(rest, fewer);
        assert(urls.contains_pair(last.0, last.1));
        assert(fewer.insert(last.0, last.1) =~= urls);
    }
}

/// The document that results from reading `members` one after the other:
/// where a member name occurs more than once, its last value stays.
pub open spec fn members_map(members: Seq<(String, serde_json::Value)>) -> ReadDocument
    decreases members.len(),
{
    if members.len() == 0 {
        Map::empty()
    } else {
        members_map(members.drop_last()).insert(
            members.last().0@,
            json_entries(members.last().1),
        )
    }
}

/// The name of the snapshot's single member.
pub open spec fn urls_field() -> Seq<char> {
    "urls"@
}

/// The document that holds `urls`: one member, named `urls`.
pub open spec fn document_of(urls: Map<Seq<char>, Seq<char>>) -> Document {
    map![urls_field() => urls]
}

/// A written document as it should be read back: every member an object of
/// strings.
pub open spec fn as_read(document: Document) -> ReadDocument {
    document.map_values(|members: Map<Seq<char>, Seq<char>>| Some(members))
}

/// The mapping that `document` holds under `urls`: `None` where it has no
/// such member or the member is not an object of strings. Other members are
/// passed over, whatever they hold.
pub open spec fn urls_of(document: ReadDocument) -> Option<Map<Seq<char>, Seq<char>>> {
    if document.contains_key(urls_field()) {
        document[urls_field()]
    } else {
        None
    }
}

/// The snapshot text for the mapping `urls`.
pub open spec fn snapshot_text(urls: Map<Seq<char>, Seq<char>>) -> Seq<char> {
    json_text(document_of(urls))
}

/// The mapping that the snapshot `text` holds, or `None` where the text is
/// not a JSON object or has no member `urls` that is an object of strings.
pub open spec fn snapshot_urls(text: Seq<char>) -> Option<Map<Seq<char>, Seq<char>>> {
    match json_document(text) {
        Some(document) => urls_of(document),
        None => None,
    }
}

/// The text that serde_json writes, pretty-printed, for a JSON object with
/// the members of `document`. serde_json decides the text; this name stands
/// for it.
pub uninterp spec fn json_text(
    document: Map<Seq<char>, Map<Seq<char>, Seq<char>>>,
) -> Seq<char>;

/// What serde_json reads from `text` as a JSON object, member by member, or
/// `None` where it reports an error. serde_json decides; this name stands
/// for the outcome.
pub uninterp spec fn json_document(text: Seq<char>) -> Option<
    Map<Seq<char>, Option<Map<Seq<char>, Seq<char>>>>,
>;

/// What serde_json finds in `value` when it reads it as an object of
/// strings, or `None` where it reports an error. serde_json decides; this
/// name stands for the outcome.
pub uninterp spec fn json_entries(value: serde_json::Value) -> Option<Map<Seq<char>, Seq<char>>>;

/// A JSON value as serde_json holds it. Verus carries such a value through
/// without looking inside it.
#[verifier::external_type_specification]
#[verifier::external_body]
pub struct ExJsonValue(serde_json::Value);

/// Writes the JSON object with the single member `name`, whose value is the
/// object made of `entries`, with `serde_json::to_string_pretty`.
///
/// Trusted: the call succeeds, and the text is `json_text` of that document.
/// serde_json writes into a byte vector in memory, and with string keys and
/// string values its only error path is a failing writer, which a vector is
/// not. The members are handed over in ordered maps, so the text depends on
/// the entries alone and not on the order in which they are listed. Codes
/// must be distinct: which of two equal keys an ordered map keeps when it is
/// collected is not documented.
#[verifier::external_body]
pub(crate) fn render_json(name: &str, entries: &Vec<(String, String)>) -> (result: Result<
    String,
    serde_json::Error,
>)
    requires
        codes_of(entries.deep_view()).no_duplicates(),
    ensures
        result is Ok,
        result matches Ok(text) ==> text@ == json_text(
            map![name@ => entries_map(entries.deep_view())],
        ),
{
    let members: BTreeMap<&str, &str> =
        entries.iter().map(|entry| (entry.0.as_str(), entry.1.as_str())).collect();
    let mut document: BTreeMap<&str, BTreeMap<&str, &str>> = BTreeMap::new();
    document.insert(name, members);
    serde_json::to_string_pretty(&document)
}

/// Reads `text` with `serde_json::from_str` as a JSON object and hands its
/// members out, each name with its value.
///
/// Trusted: the members, taken one after the other, are the document that
/// `json_document` names for this text; an error comes back exactly when
/// `json_document` is `None`.
#[verifier::external_body]
pub(crate) fn parse_json(text: &str) -> (result: Result<
    Vec<(String, serde_json::Value)>,
    serde_json::Error,
>)
    ensures
        match result {
            Ok(members) => json_document(text@) == Some(members_map(members@)),
            Err(_) => json_document(text@) is None,
        },
{
    let document: BTreeMap<String, serde_json::Value> = serde_json::from_str(text)?;
    Ok(document.into_iter().collect())
}

/// Reads `value` with `serde_json::from_value` as an object of strings and
/// hands its pairs out.
///
/// Trusted: the pairs, stored one after the other, are the mapping that
/// `json_entries` names for this value; an error comes back exactly when
/// `json_entries` is `None`.
#[verifier::external_body]
pub(crate) fn decode_entries(value: serde_json::Value) -> (result: Result<
    Vec<(String, String)>,
    serde_json::Error,
>)
    ensures
        match result {
            Ok(entries) => json_entries(value) == Some(entries_map(entries.deep_view())),
            Err(_) => json_entries(value) is None,
        },
{
    let members: BTreeMap<String, String> = serde_json::from_value(value)?;
    Ok(members.into_iter().collect())
}

} // verus!
