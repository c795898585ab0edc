//! The registry: the mapping from short codes to target URLs.

use vstd::hash_map::StringHashMap;
use vstd::prelude::*;

use crate::code::{generate_code, is_short_code};
use crate::error::{is_json_failure_text, UrlShortenerError};
use crate::snapshot::{
    codes_of, decode_entries, entries_map, is_listing_of, json_document, json_entries,
    lemma_listing_stores_back, members_map, parse_json, render_json, snapshot_text, urls_field,
    urls_of, ReadDocument,
};
use crate::text::same_text;
use crate::url::{has_accepted_scheme, is_valid_url};

verus! {

/// The codes of `codes`, each as its sequence of characters.
spec fn code_views(codes: Seq<String>) -> Seq<Seq<char>> {
    codes.map_values(|code: String| code@)
}

/// What a lookup of `code` in the mapping `urls` finds.
pub open spec fn lookup(urls: Map<Seq<char>, Seq<char>>, code: Seq<char>) -> Option<Seq<char>> {
    if urls.contains_key(code) {
        Some(urls[code])
    } else {
        None
    }
}

/// The cause reported for a snapshot that parses but has no member `urls`.
pub open spec fn missing_urls_cause() -> Seq<char> {
    "missing field `urls`"@
}

/// What setting a registry up from the read `document` gives: the mapping
/// under `urls` where there is one; otherwise a storage error, whose cause is
/// serde_json's where the member is not an object of strings and
/// `missing_urls_cause` where there is no such member.
pub open spec fn is_loaded_from(
    result: Result<UrlShortener, UrlShortenerError>,
    document: ReadDocument,
) -> bool {
    match urls_of(document) {
        Some(urls) => result matches Ok(registry) && registry@ == urls,
        None => {
            &&& result matches Err(UrlShortenerError::StorageError(cause))
            &&& if document.contains_key(urls_field()) {
                is_json_failure_text(cause)
            } else {
                cause@ == missing_urls_cause()
            }
        },
    }
}

/// What a successful `shorten` hands out.
#[derive(Debug)]
pub struct Shortened {
    /// The code under which the URL is now stored.
    pub code: String,
    /// The snapshot of the registry with the new entry in it: the text to
    /// write to the snapshot file.
    pub snapshot: String,
}

/// The registry of shortened URLs.
///
/// Its model is a finite map from short code to target URL. The URLs live in
/// vstd's `StringHashMap`, which is std's hash map with string keys under a
/// specification: of a plain `HashMap<String, _>` Verus knows nothing, since
/// vstd gives `String` no key model. That map cannot be walked, so `codes`
/// lists every key exactly once, in the order the codes first came in, and
/// the registry is enumerated through it.
pub struct UrlShortener {
    codes: Vec<String>,
    urls: StringHashMap<String>,
}

impl View for UrlShortener {
    type V = Map<Seq<char>, Seq<char>>;

    closed spec fn view(&self) -> Map<Seq<char>, Seq<char>> {
        self.urls@.map_values(|url: String| url@)
    }
}

impl UrlShortener {
    #[verifier::type_invariant]
    spec fn well_formed(&self) -> bool {
        &&& code_views(self.codes@).no_duplicates()
        &&& forall|code: Seq<char>|
            self.urls@.contains_key(code) <==> code_views(self.codes@).contains(code)
    }

    /// A registry with no entries.
    pub fn empty() -> (registry: Self)
        ensures
            registry@ == Map::<Seq<char>, Seq<char>>::empty(),
    {
        let registry = UrlShortener { codes: Vec::new(), urls: StringHashMap::new() };
        assert(registry@ =~= Map::<Seq<char>, Seq<char>>::empty());
        registry
    }

    /// Sets the registry up from what the snapshot file holds: `None` where
    /// there is no file, which gives an empty registry; otherwise the file's
    /// text, which must be a snapshot. A text that is not one is a storage
    /// error that carries the cause.
    pub fn new(contents: Option<&str>) -> (result: Result<Self, UrlShortenerError>)
        ensures
            match contents {
                None => result matches Ok(registry) && registry@ == Map::<
                    Seq<char>,
                    Seq<char>,
                >::empty(),
                Some(text) => match json_document(text@) {
                    Some(document) => is_loaded_from(result, document),
                    None => result matches Err(UrlShortenerError::StorageError(cause))
                        && is_json_failure_text(cause),
                },
            },
    {
        match contents {
            None => Ok(UrlShortener::empty()),
            Some(text) => match parse_json(text) {
                Ok(members) => UrlShortener::from_document(members),
                Err(e) => Err(UrlShortenerError::from(e)),
            },
        }
    }

    /// Takes the registry out of a parsed snapshot: the entries of its member
    /// `urls`. Other members are passed over, whatever they hold; a document
    /// without `urls`, or with one that is not an object of strings, is a
    /// storage error.
    pub fn from_document(members: Vec<(String, serde_json::Value)>) -> (result: Result<
        Self,
        UrlShortenerError,
    >)
        ensures
            is_loaded_from(result, members_map(members@)),
    {
        let ghost all = members@;
        let mut found: Option<serde_json::Value> = None;
        for member in it: members
            invariant
                it.seq() == all,
                match found {
                    Some(value) => {
                        let read = members_map(all.take(it.index() as int));
                        read.contains_key(urls_field()) && read[urls_field()] == json_entries(
                            value,
                        )
                    },
                    None => !members_map(all.take(it.index() as int)).contains_key(urls_field()),
                },
        {
            proof {
                let i = it.index() as int;
                assert(all.take(i + 1).drop_last() =~= all.take(i));
                assert(all.take(i + 1).last() == all[i]);
            }
            let (name, value) = member;
            if same_text(name.as_str(), "urls") {
                found = Some(value);
            }
        }
        assert(all.take(all.len() as int) =~= all);
        match found {
            Some(value) => match decode_entries(value) {
                Ok(entries) => Ok(UrlShortener::from_entries(entries)),
                Err(e) => Err(UrlShortenerError::from(e)),
            },
            None => Err(UrlShortenerError::StorageError("missing field `urls`".to_owned())),
        }
    }

    /// Shortens `url`: checks its scheme, draws a fresh code, stores the URL
    /// under it and hands out the code together with the snapshot that must
    /// reach the snapshot file before the caller reports success.
    ///
    /// Every URL with an accepted scheme is shortened; no other is. A code
    /// that is already taken is not drawn again: the new URL replaces the one
    /// stored before.
    pub fn shorten(&mut self, url: &str) -> (result: Result<Shortened, UrlShortenerError>)
        ensures
            has_accepted_scheme(url@) <==> result is Ok,
            match result {
                Ok(done) => {
                    &&& is_short_code(done.code@)
                    &&& final(self)@ == old(self)@.insert(done.code@, url@)
                    &&& done.snapshot@ == snapshot_text(final(self)@)
                },
                Err(e) => {
                    &&& e is InvalidUrl
                    &&& final(self)@ == old(self)@
                },
            },
    {
        if !is_valid_url(url) {
            return Err(UrlShortenerError::InvalidUrl);
        }
        let code = generate_code();
        self.store(code.clone(), url.to_owned());
        match self.save() {
            Ok(snapshot) => Ok(Shortened { code, snapshot }),
            Err(e) => Err(e),
        }
    }

    /// The snapshot of the registry as it stands: the text to write to the
    /// snapshot file, whole, after every change. Rendering the text always
    /// succeeds; what can fail is the write, which is the caller's.
    pub fn save(&self) -> (result: Result<String, UrlShortenerError>)
        ensures
            result matches Ok(text) && text@ == snapshot_text(self@),
    {
        let entries = self.list();
        proof {
            lemma_listing_stores_back(entries.deep_view(), self@);
        }
        match render_json("urls", &entries) {
            Ok(text) => Ok(text),
            Err(e) => Err(UrlShortenerError::from(e)),
        }
    }

    /// The registry that results from storing `entries` one after the other.
    pub fn from_entries(entries: Vec<(String, String)>) -> (registry: Self)
        ensures
            registry@ == entries_map(entries.deep_view()),
    {
        let ghost all = entries.deep_view();
        let mut registry = UrlShortener::empty();
        for entry in it: entries
            invariant
                it.seq().len() == all.len(),
                forall|j: int| 0 <= j < all.len() ==> all[j] == (#[trigger] it.seq()[j]).deep_view(),
                registry@ == entries_map(all.take(it.index() as int)),
        {
            proof {
                let i = it.index() as int;
                assert(all.take(i + 1).drop_last() =~= all.take(i));
                assert(all.take(i + 1).last() == all[i]);
            }
            let (code, url) = entry;
            registry.store(code, url);
        }
        assert(all.take(all.len() as int) =~= all);
        registry
    }

    /// Stores `url` under `code`. An entry already stored under `code` is
    /// replaced: the last write wins.
    pub fn store(&mut self, code: String, url: String)
        ensures
            final(self)@ == old(self)@.insert(code@, url@),
    {
        let mut taken = UrlShortener::empty();
        std::mem::swap(self, &mut taken);
        proof {
            use_type_invariant(&taken);
        }
        let UrlShortener { mut codes, mut urls } = taken;
        let ghost old_codes = codes@;
        let ghost old_urls = urls@;
        if !urls.contains_key(code.as_str()) {
            codes.push(code.clone());
            assert(code_views(codes@) =~= code_views(old_codes).push(code@));
        }
        urls.insert(code, url);
        proof {
            let views = code_views(codes@);
            assert forall|c: Seq<char>| urls@.contains_key(c) <==> views.contains(c) by {
                if old_urls.contains_key(code@) {
                    assert(views == code_views(old_codes));
                } else {
                    if code_views(old_codes).contains(c) {
                        let i = choose|i: int|
                            0 <= i < code_views(old_codes).len() && code_views(old_codes)[i] == c;
                        assert(views[i] == c);
                    }
                    assert(views[views.len() - 1] == code@);
                }
            }
            assert(urls@.map_values(|u: String| u@) =~= old_urls.map_values(|u: String| u@).insert(
                code@,
                url@,
            ));
        }
        *self = UrlShortener { codes, urls };
    }

    /// Enumerates the registry: every (code, URL) pair once, in no promised
    /// order.
    pub fn list(&self) -> (entries: Vec<(String, String)>)
        ensures
            is_listing_of(entries.deep_view(), self@),
    {
        proof {
            use_type_invariant(self);
        }
        let mut entries: Vec<(String, String)> = Vec::new();
        let mut i: usize = 0;
        while i < self.codes.len()
            invariant
                i <= self.codes.len(),
                entries.len() == i,
                forall|code: Seq<char>|
                    self.urls@.contains_key(code) <==> code_views(self.codes@).contains(code),
                forall|j: int|
                    0 <= j < i ==> {
                        &&& (#[trigger] entries[j]).0@ == self.codes[j]@
                        &&& self.urls@.contains_key(entries[j].0@)
                        &&& entries[j].1@ == self.urls@[entries[j].0@]@
                    },
            decreases self.codes.len() - i,
        {
            let code = &self.codes[i];
            assert(code_views(self.codes@)[i as int] == code@);
            match self.urls.get(code.as_str()) {
                Some(url) => {
                    entries.push((code.clone(), url.clone()));
                },
                None => {
                    assert(false);
                },
            }
            i += 1;
        }
        proof {
            let listed = entries.deep_view();
            assert(codes_of(listed) =~= code_views(self.codes@));
            assert forall|code: Seq<char>| self@.contains_key(code) implies codes_of(
                listed,
            ).contains(code) by {
                assert(self.urls@.contains_key(code));
            }
            assert forall|j: int| 0 <= j < listed.len() implies self@.contains_pair(
                (#[trigger] listed[j]).0,
                listed[j].1,
            ) by {
                assert(listed[j].0 == entries[j].0@);
            }
        }
        entries
    }

    /// Looks up the target URL stored under `short_code`.
    pub fn expand(&self, short_code: &str) -> (result: Result<String, UrlShortenerError>)
        ensures
            match lookup(self@, short_code@) {
                Some(target) => result matches Ok(url) && url@ == target,
                None => result matches Err(e) && e is UrlNotFound,
            },
    {
        match self.urls.get(short_code) {
            Some(url) => Ok(url.clone()),
            None => Err(UrlShortenerError::UrlNotFound),
        }
    }
}

} // verus!
