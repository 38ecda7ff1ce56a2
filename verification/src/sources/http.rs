//! Sources at ordinary addresses.

use vstd::prelude::*;

use super::AnyLock;
use super::LockResult;
use super::Source;
use crate::timestamp::Timestamp;

verus! {

/// The kind of source that is one file at an address.
pub struct Http;

/// There is nothing to say of the revision: it is what the address now leads to.
#[derive(Debug, Clone, Copy, PartialEq, Eq)]
pub struct Spec;

/// There is nothing to lock but what is fetched.
#[derive(Debug, Clone, Copy, PartialEq, Eq)]
pub struct Lock;

impl Source for Http {
    type Lock = Lock;

    type RevisionSpec = Spec;

    type Step = LockResult<Lock>;

    open spec fn scheme_names() -> Seq<Seq<char>> {
        seq!["http"@, "https"@]
    }

    open spec fn accepts(spec: Seq<char>) -> bool {
        true
    }

    open spec fn begins_with(
        spec: Seq<char>,
        rev_spec: Spec,
        lock: Option<Lock>,
        step: LockResult<Lock>,
    ) -> bool {
        step == LockResult::Unchanged(Lock)
    }

    fn schemes() -> (schemes: Vec<&'static str>) {
        let schemes: Vec<&'static str> = vec!["http", "https"];
        assert(schemes@.map_values(|scheme: &'static str| scheme@) =~= Self::scheme_names());
        schemes
    }

    fn lock(_spec: String, _rev_spec: Spec, _lock: Option<&Lock>) -> (step: LockResult<Lock>) {
        LockResult::Unchanged(Lock)
    }
}

impl super::Lock for Lock {
    open spec fn url_text(&self, spec: Seq<char>) -> Option<Seq<char>> {
        Some(spec)
    }

    open spec fn always_same(&self) -> bool {
        false
    }

    open spec fn version_name(&self) -> Option<String> {
        None
    }

    open spec fn modified(&self) -> Option<Timestamp> {
        None
    }

    open spec fn as_any(self) -> AnyLock {
        AnyLock::Http(self)
    }

    fn url_source(&self, spec: &str) -> (text: Option<String>) {
        Some(spec.to_owned())
    }

    fn is_immutable(&self) -> (immutable: bool) {
        false
    }

    fn version(&self) -> (version: Option<String>) {
        None
    }

    fn last_modified(&self) -> (modified: Option<Timestamp>) {
        None
    }

    fn into_any(self) -> (any: AnyLock) {
        AnyLock::Http(self)
    }
}

} // verus!
