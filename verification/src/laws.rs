//! What holds of the registry across operations, stated over its model.

use vstd::prelude::*;

use crate::registry::lookup;
use crate::snapshot::{
    as_read, codes_of, document_of, json_document, json_text, snapshot_text, snapshot_urls,
    urls_of, Entries,
};

verus! {

/// After a URL has been stored under a code, looking that code up finds the
/// URL, whatever the registry held before.
pub proof fn lemma_lookup_after_store(
    urls: Map<Seq<char>, Seq<char>>,
    code: Seq<char>,
    url: Seq<char>,
)
    ensures
        lookup(urls.insert(code, url), code) == Some(url),
{
}

/// Storing a URL under one code leaves the lookup of every other code as it
/// was.
pub proof fn lemma_store_keeps_other_codes(
    urls: Map<Seq<char>, Seq<char>>,
    code: Seq<char>,
    url: Seq<char>,
    other: Seq<char>,
)
    requires
        other != code,
    ensures
        lookup(urls.insert(code, url), other) == lookup(urls, other),
{
}

/// A code that the registry does not hold is a miss.
pub proof fn lemma_lookup_misses_absent_code(urls: Map<Seq<char>, Seq<char>>, code: Seq<char>)
    requires
        !urls.contains_key(code),
    ensures
        lookup(urls, code) is None,
{
}

/// Storing under a code that is not yet taken adds exactly one entry; storing
/// under a taken code keeps the count.
pub proof fn lemma_store_counts(
    urls: Map<Seq<char>, Seq<char>>,
    code: Seq<char>,
    url: Seq<char>,
)
    requires
        urls.dom().finite(),
    ensures
        urls.insert(code, url).dom().finite(),
        urls.contains_key(code) ==> urls.insert(code, url).len() == urls.len(),
        !urls.contains_key(code) ==> urls.insert(code, url).len() == urls.len() + 1,
{
    assert(urls.insert(code, url).dom() =~= urls.dom().insert(code));
}

/// The mapping after `entries` have been stored in `urls`, one after the
/// other, as successive calls of `shorten` store them.
pub open spec fn stored_all(urls: Map<Seq<char>, Seq<char>>, entries: Entries) -> Map<
    Seq<char>,
    Seq<char>,
>
    decreases entries.len(),
{
    if entries.len() == 0 {
        urls
    } else {
        stored_all(urls, entries.drop_last()).insert(entries.last().0, entries.last().1)
    }
}

/// Any number of stores under codes that are new and differ from each other
/// lose nothing: the registry grows by exactly that many entries, each URL is
/// found under its code, and what was there before is found as before.
pub proof fn lemma_distinct_stores_lose_nothing(urls: Map<Seq<char>, Seq<char>>, entries: Entries)
    requires
        urls.dom().finite(),
        codes_of(entries).no_duplicates(),
        forall|i: int| 0 <= i < entries.len() ==> !urls.contains_key((#[trigger] entries[i]).0),
    ensures
        stored_all(urls, entries).dom().finite(),
        stored_all(urls, entries).len() == urls.len() + entries.len(),
        forall|i: int|
            0 <= i < entries.len() ==> lookup(
                stored_all(urls, entries),
                (#[trigger] entries[i]).0,
            ) == Some(entries[i].1),
        forall|code: Seq<char>|
            urls.contains_key(code) ==> lookup(stored_all(urls, entries), code) == lookup(
                urls,
                code,
            ),
        forall|code: Seq<char>|
            stored_all(urls, entries).contains_key(code) ==> urls.contains_key(code) || codes_of(
                entries,
            ).contains(code),
    decreases entries.len(),
{
    if entries.len() > 0 {
        let rest = entries.drop_last();
        let last = entries.last();
        let before = stored_all(urls, rest);
        assert(codes_of(rest) =~= codes_of(entries).drop_last());
        assert forall|i: int| 0 <= i < rest.len() implies !urls.contains_key(
            (#[trigger] rest[i]).0,
        ) by {
            assert(rest[i] == entries[i]);
        }
        lemma_distinct_stores_lose_nothing(urls, rest);
        assert(entries[entries.len() - 1] == last);
        assert(codes_of(entries)[entries.len() - 1] == last.0);
        assert(!before.contains_key(last.0)) by {
            if before.contains_key(last.0) {
                assert(codes_of(rest).contains(last.0));
                let j = choose|j: int| 0 <= j < rest.len() && codes_of(rest)[j] == last.0;
                assert(codes_of(entries)[j] == last.0);
            }
        }
        lemma_store_counts(before, last.0, last.1);
        assert forall|i: int| 0 <= i < entries.len() implies lookup(
            stored_all(urls, entries),
            (#[trigger] entries[i]).0,
        ) == Some(entries[i].1) by {
            if i < rest.len() {
                assert(rest[i] == entries[i]);
                assert(before.contains_key(entries[i].0));
            }
        }
        assert forall|code: Seq<char>|
            stored_all(urls, entries).contains_key(code) implies urls.contains_key(code)
            || codes_of(entries).contains(code) by {
            if code != last.0 && !urls.contains_key(code) {
                assert(before.contains_key(code));
                let j = choose|j: int| 0 <= j < rest.len() && codes_of(rest)[j] == code;
                assert(codes_of(entries)[j] == code);
            }
        }
    }
}

/// A mapping framed as a snapshot document is found in it again, unchanged,
/// and a lookup in what was found agrees with a lookup in the mapping.
pub proof fn lemma_framing_keeps_lookups(urls: Map<Seq<char>, Seq<char>>, code: Seq<char>)
    ensures
        urls_of(as_read(document_of(urls))) == Some(urls),
        lookup(urls_of(as_read(document_of(urls)))->0, code) == lookup(urls, code),
{
}

/// Writing the snapshot of a mapping and reading it back gives that mapping
/// again, provided serde_json reads the document back as it wrote it. The
/// framing in the member `urls` loses nothing; what JSON itself keeps is
/// serde_json's to answer for.
pub proof fn lemma_snapshot_round_trip(urls: Map<Seq<char>, Seq<char>>)
    ensures
        json_document(json_text(document_of(urls))) == Some(as_read(document_of(urls)))
            ==> snapshot_urls(snapshot_text(urls)) == Some(urls),
{
}

/// A URL stored before the snapshot was written is found under its code in
/// the registry that is set up from that snapshot, on the same proviso as
/// for the round trip.
pub proof fn lemma_stored_url_survives_restart(
    urls: Map<Seq<char>, Seq<char>>,
    code: Seq<char>,
    url: Seq<char>,
)
    ensures
        ({
            let stored = urls.insert(code, url);
            json_document(json_text(document_of(stored))) == Some(
                as_read(document_of(stored)),
            ) ==> {
                &&& snapshot_urls(snapshot_text(stored)) is Some
                &&& lookup(snapshot_urls(snapshot_text(stored))->0, code) == Some(url)
            }
        }),
{
}

} // verus!
