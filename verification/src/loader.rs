//! Loading documents: parse once per content key, share the parsed tree.
use std::collections::HashMap;
use std::hash::{BuildHasher, Hash, Hasher};
use std::rc::Rc;
use vstd::prelude::*;

verus! {

broadcast use vstd::std_specs::hash::group_hash_axioms;

/// A parsed document of the `usvg` crate, carried as it is.
#[verifier::external_type_specification]
#[verifier::external_body]
pub struct ExTree(usvg::Tree);

/// The error of the `usvg` crate's parser, carried as it is.
#[verifier::external_type_specification]
#[verifier::external_body]
pub struct ExError(usvg::Error);

/// Why a document could not be loaded.
#[derive(Clone, Copy, Debug, PartialEq, Eq, Structural)]
pub enum DocumentParseError {
    /// The content is not UTF-8 text.
    NotUtf8,
    /// The content looks compressed but does not decompress.
    MalformedGzip,
    /// The document has more elements than the parser accepts.
    TooManyElements,
    /// The document has no valid size.
    InvalidSize,
    /// The content is not a well-formed document.
    Malformed,
}

impl DocumentParseError {
    /// The words that say what went wrong, one sentence per error.
    pub open spec fn words(self) -> Seq<char> {
        match self {
            DocumentParseError::NotUtf8 => "document is not UTF-8 text"@,
            DocumentParseError::MalformedGzip => "document has malformed compressed content"@,
            DocumentParseError::TooManyElements => "document has too many elements"@,
            DocumentParseError::InvalidSize => "document has an invalid size"@,
            DocumentParseError::Malformed => "document is malformed"@,
        }
    }

    /// The error in words.
    pub fn message(&self) -> (text: String)
        ensures
            text@ == self.words(),
    {
        match self {
            DocumentParseError::NotUtf8 => "document is not UTF-8 text".to_string(),
            DocumentParseError::MalformedGzip => "document has malformed compressed content".to_string(),
            DocumentParseError::TooManyElements => "document has too many elements".to_string(),
            DocumentParseError::InvalidSize => "document has an invalid size".to_string(),
            DocumentParseError::Malformed => "document is malformed".to_string(),
        }
    }
}

/// Tells the variants of `usvg::Error` apart. Nothing is claimed of the
/// outcome.
#[verifier::external_body]
fn error_kind(error: &usvg::Error) -> (kind: DocumentParseError) {
    match error {
        usvg::Error::NotAnUtf8Str => DocumentParseError::NotUtf8,
        usvg::Error::MalformedGZip => DocumentParseError::MalformedGzip,
        usvg::Error::ElementsLimitReached => DocumentParseError::TooManyElements,
        usvg::Error::InvalidSize => DocumentParseError::InvalidSize,
        usvg::Error::ParsingFailed(_) => DocumentParseError::Malformed,
    }
}

/// The seed of the hasher that gives documents their content keys.
pub const KEY_SEED: usize = 0;

/// Hashes `data` with a hasher that `ahash::RandomState::with_seed(seed)`
/// builds (`ahash` as `epaint` hands it on).
///
/// Nothing is claimed of the outcome: for one seed the hash is fixed within
/// one build of the program but not across builds.
#[verifier::external_body]
fn content_key(data: &[u8], seed: usize) -> (key: u64) {
    let mut hasher = epaint::ahash::RandomState::with_seed(seed).build_hasher();
    data.hash(&mut hasher);
    hasher.finish()
}

/// Calls `Rc::clone`: another handle to the same tree.
#[verifier::external_body]
pub(crate) fn share(tree: &Rc<usvg::Tree>) -> (other: Rc<usvg::Tree>)
    ensures
        other == *tree,
{
    Rc::clone(tree)
}

/// What a load under `key` does to the cache `cache` and what it returns,
/// given what parsing the content yields (`None` when it does not parse).
///
/// A key that is cached returns its tree and leaves the cache alone, whatever
/// parsing would yield. A key that is not cached is parsed: a tree is entered
/// under the key and returned, a failure leaves the cache alone.
pub open spec fn loaded(
    cache: Map<u64, Rc<usvg::Tree>>,
    key: u64,
    parsed: Option<Rc<usvg::Tree>>,
) -> (Map<u64, Rc<usvg::Tree>>, Option<Rc<usvg::Tree>>) {
    if cache.contains_key(key) {
        (cache, Some(cache[key]))
    } else {
        match parsed {
            Some(tree) => (cache.insert(key, tree), Some(tree)),
            None => (cache, None),
        }
    }
}

/// Once a load under a key has succeeded, every later load under that key
/// returns the same tree and leaves the cache as it is, whatever else was
/// loaded in between and whatever parsing would yield now.
pub proof fn lemma_load_again(
    cache: Map<u64, Rc<usvg::Tree>>,
    key: u64,
    first: Option<Rc<usvg::Tree>>,
    other_key: u64,
    other: Option<Rc<usvg::Tree>>,
    second: Option<Rc<usvg::Tree>>,
)
    requires
        loaded(cache, key, first).1 is Some,
    ensures
        ({
            let after_first = loaded(cache, key, first);
            let between = loaded(after_first.0, other_key, other);
            loaded(between.0, key, second) == (between.0, after_first.1)
        }),
{
}

/// A load never removes or replaces an entry: the cache only grows.
pub proof fn lemma_load_keeps_entries(
    cache: Map<u64, Rc<usvg::Tree>>,
    key: u64,
    parsed: Option<Rc<usvg::Tree>>,
    earlier: u64,
)
    requires
        cache.contains_key(earlier),
    ensures
        loaded(cache, key, parsed).0.contains_key(earlier),
        loaded(cache, key, parsed).0[earlier] == cache[earlier],
{
}

/// The parsed documents, by content key. Entries are never removed.
pub struct TreeCache {
    trees: HashMap<u64, Rc<usvg::Tree>>,
}

impl View for TreeCache {
    type V = Map<u64, Rc<usvg::Tree>>;

    closed spec fn view(&self) -> Map<u64, Rc<usvg::Tree>> {
        self.trees@
    }
}

impl TreeCache {
    /// The empty cache.
    pub fn new() -> (cache: TreeCache)
        ensures
            cache@ == Map::<u64, Rc<usvg::Tree>>::empty(),
    {
        TreeCache { trees: HashMap::new() }
    }

    /// The tree cached under `key`, if there is one.
    pub fn get(&self, key: u64) -> (tree: Option<Rc<usvg::Tree>>)
        ensures
            tree == if self@.contains_key(key) {
                Some(self@[key])
            } else {
                None
            },
    {
        match self.trees.get(&key) {
            Some(tree) => Some(share(tree)),
            None => None,
        }
    }

    /// Finishes a load under a key that is not cached, given the parser's
    /// outcome: a tree is entered under `key` and returned, an error is
    /// handed on and the cache stays as it is.
    pub fn enter(&mut self, key: u64, parsed: Result<usvg::Tree, usvg::Error>) -> (tree: Result<
        Rc<usvg::Tree>,
        DocumentParseError,
    >)
        requires
            !old(self)@.contains_key(key),
        ensures
            match parsed {
                Ok(t) => tree == Ok::<Rc<usvg::Tree>, DocumentParseError>(Rc::new(t))
                    && final(self)@ == old(self)@.insert(key, Rc::new(t)),
                Err(_) => tree is Err && final(self)@ == old(self)@,
            },
    {
        match parsed {
            Ok(t) => {
                let tree = Rc::new(t);
                self.trees.insert(key, share(&tree));
                Ok(tree)
            },
            Err(e) => Err(error_kind(&e)),
        }
    }

    /// Loads a document under the content key `key`: from the cache if the
    /// key is there, else by running `parse`. The parser is run on a miss
    /// only, and once: its tree is entered under the key and returned, its
    /// error is handed on and leaves the cache as it is.
    pub fn load_keyed<F: FnOnce() -> Result<usvg::Tree, usvg::Error>>(
        &mut self,
        key: u64,
        parse: F,
    ) -> (tree: Result<Rc<usvg::Tree>, DocumentParseError>)
        requires
            call_requires(parse, ()),
        ensures
            old(self)@.contains_key(key) ==> tree == Ok::<Rc<usvg::Tree>, DocumentParseError>(
                old(self)@[key],
            ) && final(self)@ == old(self)@,
            !old(self)@.contains_key(key) ==> exists|parsed: Result<usvg::Tree, usvg::Error>|
                call_ensures(parse, (), parsed) && match parsed {
                    Ok(t) => tree == Ok::<Rc<usvg::Tree>, DocumentParseError>(Rc::new(t))
                        && final(self)@ == old(self)@.insert(key, Rc::new(t)),
                    Err(_) => tree is Err && final(self)@ == old(self)@,
                },
            match tree {
                Ok(t) => (final(self)@, Some(t)) == loaded(old(self)@, key, Some(t)),
                Err(_) => final(self)@ == old(self)@,
            },
    {
        match self.get(key) {
            Some(tree) => Ok(tree),
            None => {
                let parsed = parse();
                self.enter(key, parsed)
            },
        }
    }

    /// Loads the document with the content `data`: hashes `data` to its
    /// content key and loads the document under that key, running `parse` if
    /// the key is not cached. Returns the key with the tree. An error is
    /// always the parser's: it comes only where the key was not cached and
    /// the parser failed.
    pub fn load<F: FnOnce() -> Result<usvg::Tree, usvg::Error>>(&mut self, data: &[u8], parse: F) -> (loaded:
        Result<(u64, Rc<usvg::Tree>), DocumentParseError>)
        requires
            call_requires(parse, ()),
        ensures
            match loaded {
                Ok((key, t)) => {
                    &&& old(self)@.contains_key(key) ==> t == old(self)@[key] && final(self)@ == old(
                        self,
                    )@
                    &&& !old(self)@.contains_key(key) ==> final(self)@ == old(self)@.insert(key, t)
                        && exists|parsed: usvg::Tree|
                        call_ensures(parse, (), Ok::<usvg::Tree, usvg::Error>(parsed)) && t
                            == Rc::new(parsed)
                    &&& (final(self)@, Some(t)) == self::loaded(old(self)@, key, Some(t))
                },
                Err(_) => final(self)@ == old(self)@ && exists|e: usvg::Error|
                    call_ensures(parse, (), Err::<usvg::Tree, usvg::Error>(e)),
            },
    {
        let key = content_key(data, KEY_SEED);
        let tree = self.load_keyed(key, parse);
        proof {
            if !old(self)@.contains_key(key) {
                let parsed = choose|parsed: Result<usvg::Tree, usvg::Error>|
                    call_ensures(parse, (), parsed) && match parsed {
                        Ok(t) => tree == Ok::<Rc<usvg::Tree>, DocumentParseError>(Rc::new(t))
                            && self@ == old(self)@.insert(key, Rc::new(t)),
                        Err(_) => tree is Err && self@ == old(self)@,
                    };
                match parsed {
                    Ok(t) => {
                        assert(call_ensures(parse, (), Ok::<usvg::Tree, usvg::Error>(t)));
                    },
                    Err(e) => {
                        assert(call_ensures(parse, (), Err::<usvg::Tree, usvg::Error>(e)));
                    },
                }
            }
        }
        match tree {
            Ok(tree) => Ok((key, tree)),
            Err(e) => Err(e),
        }
    }
}

} // verus!
