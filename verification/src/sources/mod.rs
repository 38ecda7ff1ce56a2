//! Where sources come from.

use vstd::prelude::*;

use crate::address::url_href;
use crate::address::Url;
use crate::text::cut;
use crate::text::lemma_cut;
use crate::text::lemma_cut_parts;
use crate::text::lemma_stripped;
use crate::text::split_once;
use crate::text::stripped;
use crate::text::text_of;
use crate::timestamp::Timestamp;

pub mod error;
pub mod github;
pub mod graphql;
pub mod http;
mod lock_result;

pub use error::LockError;
pub use lock_result::LockResult;

verus! {

/// Whether there is a text, and it is an address that can be fetched from.
pub open spec fn is_address(text: Option<Seq<char>>) -> bool {
    text matches Some(text) && url_href(text) is Some
}

/// The lock of a source: what it takes to fetch the same thing again.
pub trait Lock: Sized {
    /// The address to fetch from, as it is written down, where the spec leads to one.
    spec fn url_text(&self, spec: Seq<char>) -> Option<Seq<char>>;

    /// Whether the same content is found at the address forever.
    spec fn always_same(&self) -> bool;

    /// What people call the locked revision.
    spec fn version_name(&self) -> Option<String>;

    /// When the locked revision was last modified.
    spec fn modified(&self) -> Option<Timestamp>;

    /// The lock as one of any kind of source.
    spec fn as_any(self) -> AnyLock;

    /// The address to fetch from, as it is written down.
    fn url_source(&self, spec: &str) -> (text: Option<String>)
        ensures
            text_of(text) == self.url_text(spec@),
    ;

    /// The address to fetch from. There has to be one.
    fn url(&self, spec: &str) -> (url: Url)
        requires
            is_address(self.url_text(spec@)),
        ensures
            url.read_from(self.url_text(spec@)->0),
    {
        let text = self.url_source(spec).unwrap();
        Url::parse(text.as_str()).unwrap()
    }

    /// Whether the content found at the address never changes. The tarball of a commit on GitHub
    /// never does, what is found at an ordinary address may.
    fn is_immutable(&self) -> (immutable: bool)
        ensures
            immutable == self.always_same(),
    ;

    /// What people call the locked revision.
    fn version(&self) -> (version: Option<String>)
        ensures
            version == self.version_name(),
    ;

    /// When the locked revision was last modified.
    fn last_modified(&self) -> (modified: Option<Timestamp>)
        ensures
            modified == self.modified(),
    ;

    /// The lock as one of any kind of source.
    fn into_any(self) -> (any: AnyLock)
        ensures
            any == self.as_any(),
            forall|spec: Seq<char>| #[trigger] any.address_for(spec) == self.url_text(spec),
            any.is_fixed() == self.always_same(),
            any.name() == self.version_name(),
            any.time() == self.modified(),
    ;
}

/// The address to fetch from, where the spec leads to one.
pub fn checked_url<L: Lock>(lock: &L, spec: &str) -> (url: Option<Url>)
    ensures
        match url {
            Some(url) => is_address(lock.url_text(spec@)) && url.read_from(lock.url_text(spec@)->0),
            None => !is_address(lock.url_text(spec@)),
        },
{
    match lock.url_source(spec) {
        Some(text) => match Url::parse(text.as_str()) {
            Some(_) => Some(lock.url(spec)),
            None => None,
        },
        None => None,
    }
}

/// A lock of any kind of source.
#[derive(Debug, PartialEq, Eq)]
pub enum AnyLock {
    /// The lock of a source on GitHub.
    GitHub(github::Lock),
    /// The lock of a source at an ordinary address.
    Http(http::Lock),
}

impl AnyLock {
    /// The address to fetch from, as it is written down, where the spec leads to one.
    pub open spec fn address_for(self, spec: Seq<char>) -> Option<Seq<char>> {
        match self {
            AnyLock::GitHub(lock) => github::archive_for(spec, lock.rev@),
            AnyLock::Http(_) => Some(spec),
        }
    }

    /// Whether the same content is found at the address forever.
    pub open spec fn is_fixed(self) -> bool {
        self is GitHub
    }

    /// What people call the locked revision.
    pub open spec fn name(self) -> Option<String> {
        match self {
            AnyLock::GitHub(lock) => lock.tag,
            AnyLock::Http(_) => None,
        }
    }

    /// When the locked revision was last modified. No kind of source tells.
    pub open spec fn time(self) -> Option<Timestamp> {
        None
    }
}

impl Clone for AnyLock {
    fn clone(&self) -> (copy: AnyLock)
        ensures
            copy == *self,
    {
        match self {
            AnyLock::GitHub(lock) => AnyLock::GitHub(lock.clone()),
            AnyLock::Http(lock) => AnyLock::Http(lock.clone()),
        }
    }
}

impl Lock for AnyLock {
    open spec fn url_text(&self, spec: Seq<char>) -> Option<Seq<char>> {
        self.address_for(spec)
    }

    open spec fn always_same(&self) -> bool {
        self.is_fixed()
    }

    open spec fn version_name(&self) -> Option<String> {
        self.name()
    }

    open spec fn modified(&self) -> Option<Timestamp> {
        self.time()
    }

    open spec fn as_any(self) -> AnyLock {
        self
    }

    fn url_source(&self, spec: &str) -> (text: Option<String>) {
        match self {
            AnyLock::GitHub(lock) => lock.url_source(spec),
            AnyLock::Http(lock) => lock.url_source(spec),
        }
    }

    fn is_immutable(&self) -> (immutable: bool) {
        match self {
            AnyLock::GitHub(lock) => lock.is_immutable(),
            AnyLock::Http(lock) => lock.is_immutable(),
        }
    }

    fn version(&self) -> (version: Option<String>) {
        match self {
            AnyLock::GitHub(lock) => lock.version(),
            AnyLock::Http(lock) => lock.version(),
        }
    }

    fn last_modified(&self) -> (modified: Option<Timestamp>) {
        match self {
            AnyLock::GitHub(lock) => lock.last_modified(),
            AnyLock::Http(lock) => lock.last_modified(),
        }
    }

    fn into_any(self) -> (any: AnyLock) {
        self
    }
}

/// The same result, its locks taken as locks of any kind of source.
pub open spec fn result_as_any<T: Lock>(result: LockResult<T>) -> LockResult<AnyLock> {
    match result {
        LockResult::Unchanged(inner) => LockResult::Unchanged(inner.as_any()),
        LockResult::Changed(Some(old), new) => LockResult::Changed(
            Some(old.as_any()),
            new.as_any(),
        ),
        LockResult::Changed(None, new) => LockResult::Changed(None, new.as_any()),
    }
}

/// Whether two locks say the same of what they lock.
pub open spec fn says_the_same<T: Lock>(lock: T, any: AnyLock) -> bool {
    &&& forall|spec: Seq<char>| #[trigger] any.url_text(spec) == lock.url_text(spec)
    &&& any.always_same() == lock.always_same()
    &&& any.version_name() == lock.version_name()
    &&& any.modified() == lock.modified()
}

impl<T: Lock> LockResult<T> {
    /// The same result, its locks taken as locks of any kind of source. They say what they said.
    pub fn into_dyn(self) -> (result: LockResult<AnyLock>)
        ensures
            result == result_as_any(self),
            says_the_same(self.current_lock(), result.current_lock()),
            self.old_lock() matches Some(old) ==> says_the_same(old, result.old_lock()->0),
    {
        match self {
            LockResult::Unchanged(inner) => LockResult::Unchanged(inner.into_any()),
            LockResult::Changed(old, new) => {
                let old = match old {
                    Some(old) => Some(old.into_any()),
                    None => None,
                };
                LockResult::Changed(old, new.into_any())
            },
        }
    }
}

/// A kind of source.
pub trait Source {
    /// Its locks.
    type Lock: Lock;

    /// How to say which revision is meant.
    type RevisionSpec;

    /// What locking begins with.
    type Step;

    /// The schemes of the specs that name such sources.
    spec fn scheme_names() -> Seq<Seq<char>>;

    /// Whether a spec names such a source in full.
    spec fn accepts(spec: Seq<char>) -> bool;

    /// Whether locking a source begins with `step`.
    spec fn begins_with(
        spec: Seq<char>,
        rev_spec: Self::RevisionSpec,
        lock: Option<Self::Lock>,
        step: Self::Step,
    ) -> bool;

    /// The schemes of the specs that name such sources.
    fn schemes() -> (schemes: Vec<&'static str>)
        ensures
            schemes@.map_values(|scheme: &'static str| scheme@) == Self::scheme_names(),
    ;

    /// Begins to lock a source, which may have been locked before.
    fn lock(
        spec: String,
        rev_spec: Self::RevisionSpec,
        lock: Option<&Self::Lock>,
    ) -> (step: Self::Step)
        requires
            Self::accepts(spec@),
        ensures
            Self::begins_with(
                spec@,
                rev_spec,
                match lock {
                    Some(lock) => Some(*lock),
                    None => None,
                },
                step,
            ),
    ;
}

/// The kinds of sources.
#[derive(Debug, Clone, Copy, PartialEq, Eq, Structural)]
pub enum SourceKind {
    /// A repository on GitHub.
    GitHub,
    /// A file at an ordinary address.
    Http,
}

/// Whether one of the schemes is `scheme`.
fn has_scheme(schemes: &Vec<&'static str>, scheme: &str) -> (found: bool)
    ensures
        found == schemes@.map_values(|scheme: &'static str| scheme@).contains(scheme@),
{
    let ghost names = schemes@.map_values(|scheme: &'static str| scheme@);
    let wanted: String = scheme.to_owned();
    let mut i: usize = 0;
    while i < schemes.len()
        invariant
            i <= schemes.len(),
            names == schemes@.map_values(|scheme: &'static str| scheme@),
            wanted@ == scheme@,
            forall|j: int| 0 <= j < i ==> names[j] != scheme@,
        decreases schemes.len() - i,
    {
        let name: String = schemes[i].to_owned();
        if name == wanted {
            assert(names[i as int] == scheme@);
            return true;
        }
        i += 1;
    }
    false
}

/// The kind of source that a spec names: by its scheme, which is what stands before its first
/// colon.
pub open spec fn source_kind(spec: Seq<char>) -> Result<SourceKind, LockError> {
    match cut(spec, ':') {
        Some((scheme, _)) => {
            if github::GitHub::scheme_names().contains(scheme) {
                Ok(SourceKind::GitHub)
            } else if http::Http::scheme_names().contains(scheme) {
                Ok(SourceKind::Http)
            } else {
                Err(LockError::UnknownScheme)
            }
        },
        None => Err(LockError::InvalidSpec),
    }
}

/// What is locked on GitHub never changes, what is found at an ordinary address may.
pub proof fn law_which_content_never_changes(lock: AnyLock)
    ensures
        lock.always_same() <==> lock is GitHub,
{
}

/// A spec has a scheme exactly where it has a colon, and is one of a source at an ordinary address
/// exactly where it starts with `http:` or `https:`.
pub proof fn law_http_specs(spec: Seq<char>)
    ensures
        source_kind(spec) == Err::<SourceKind, LockError>(LockError::InvalidSpec)
            <==> !spec.contains(':'),
        source_kind(spec) == Ok::<SourceKind, LockError>(SourceKind::Http) <==> {
            ||| stripped(spec, "http:"@) is Some
            ||| stripped(spec, "https:"@) is Some
        },
{
    reveal_strlit("github");
    reveal_strlit("http");
    reveal_strlit("https");
    reveal_strlit("http:");
    reveal_strlit("https:");
    lemma_cut_parts(spec, ':');
    assert("http:"@ =~= "http"@ + seq![':']);
    assert("https:"@ =~= "https"@ + seq![':']);
    assert("http"@.len() == 4 && "https"@.len() == 5 && "github"@.len() == 6);
    assert(http::Http::scheme_names()[0] == "http"@);
    assert(http::Http::scheme_names()[1] == "https"@);
    if stripped(spec, "http:"@) is Some {
        let rest = spec.skip(5);
        assert(spec =~= "http"@ + seq![':'] + rest);
        lemma_cut("http"@, ':', rest);
    }
    if stripped(spec, "https:"@) is Some {
        let rest = spec.skip(6);
        assert(spec =~= "https"@ + seq![':'] + rest);
        lemma_cut("https"@, ':', rest);
    }
    if source_kind(spec) == Ok::<SourceKind, LockError>(SourceKind::Http) {
        let (scheme, rest) = cut(spec, ':')->0;
        lemma_stripped(scheme + seq![':'], rest);
    }
}

/// Begins to lock the source that a spec names: finds out which kind of source is to lock it.
pub fn lock(spec: &str) -> (kind: Result<SourceKind, LockError>)
    ensures
        kind == source_kind(spec@),
{
    match split_once(spec, ':') {
        Some((scheme, _)) => {
            if has_scheme(&github::GitHub::schemes(), scheme) {
                Ok(SourceKind::GitHub)
            } else if has_scheme(&http::Http::schemes(), scheme) {
                Ok(SourceKind::Http)
            } else {
                Err(LockError::UnknownScheme)
            }
        },
        None => Err(LockError::InvalidSpec),
    }
}

} // verus!
