//! What the spec file and the lock file say of a source.

use vstd::prelude::*;
use vstd::string::*;

use crate::sources::AnyLock;
use crate::sources::Lock as _;
use crate::text::copied;
use crate::text::text_of;
use crate::timestamp::Timestamp;

verus! {

/// The hash of some content, `ssri2::Integrity`. Hashes are carried around, never looked into.
#[verifier::external_type_specification]
#[verifier::external_body]
pub struct ExIntegrity(ssri2::Integrity);

/// `ssri2::Integrity` derives `Clone`: a clone of a hash is the same hash.
pub assume_specification[ <ssri2::Integrity as Clone>::clone ](
    integrity: &ssri2::Integrity,
) -> (copy: ssri2::Integrity)
    ensures
        copy == *integrity,
;

/// Whether to unpack what is fetched, where the spec file does not say.
pub fn default_unpack() -> (unpack: bool)
    ensures
        unpack,
{
    true
}

/// What the spec file says of every source.
#[derive(Debug)]
pub struct Spec {
    /// The spec that names the source.
    pub spec: String,
    /// Whether to unpack what is fetched.
    pub unpack: bool,
}

/// What the lock file says of every source.
#[derive(Debug)]
pub struct Lock {
    /// The hash of what is fetched.
    pub hash: ssri2::Integrity,
    /// The tag by which the server tells one content of an address from another.
    pub etag: Option<String>,
    /// Whether what is fetched was unpacked before it was hashed.
    pub unpack: bool,
    /// When what is fetched was last modified. It serves to show what changed, not to tell whether
    /// anything did.
    pub last_modified: Option<Timestamp>,
}

impl Clone for Lock {
    fn clone(&self) -> (copy: Lock)
        ensures
            copy == *self,
    {
        Lock {
            hash: self.hash.clone(),
            etag: copied(&self.etag),
            unpack: self.unpack,
            last_modified: self.last_modified,
        }
    }
}

/// All that the lock file says of a source: what it says of every source, and what it says of
/// sources of its kind.
#[derive(Debug)]
pub struct FullLock {
    /// What the lock file says of every source.
    pub lock: Lock,
    /// What the lock file says of sources of its kind.
    pub inner: AnyLock,
}

impl Clone for FullLock {
    fn clone(&self) -> (copy: FullLock)
        ensures
            copy == *self,
    {
        FullLock { lock: self.lock.clone(), inner: self.inner.clone() }
    }
}

/// A locked revision in a few words, given what people call it and when it was last modified.
pub open spec fn info_text(
    version: Option<Seq<char>>,
    last_modified: Option<Seq<char>>,
) -> Seq<char> {
    match (version, last_modified) {
        (Some(version), Some(last_modified)) => version + " ("@ + last_modified + ")"@,
        (Some(version), None) => version,
        (None, Some(last_modified)) => "("@ + last_modified + ")"@,
        (None, None) => "?"@,
    }
}

/// A locked revision in a few words, given what people call it and when it was last modified.
pub fn show_info(version: Option<String>, last_modified: Option<String>) -> (text: String)
    ensures
        text@ == info_text(text_of(version), text_of(last_modified)),
{
    match (version, last_modified) {
        (Some(version), Some(last_modified)) => {
            let mut text: String = version;
            text.append(" (");
            text.append(last_modified.as_str());
            text.append(")");
            text
        },
        (Some(version), None) => version,
        (None, Some(last_modified)) => {
            let mut text: String = "(".to_owned();
            text.append(last_modified.as_str());
            text.append(")");
            text
        },
        (None, None) => "?".to_owned(),
    }
}

/// When a revision was last modified: what its kind of source knows of that goes before what the
/// server said.
pub fn shown_time(own: Option<Timestamp>, server: Option<Timestamp>) -> (time: Option<Timestamp>)
    ensures
        time == (match own {
            Some(_) => own,
            None => server,
        }),
{
    match own {
        Some(_) => own,
        None => server,
    }
}

impl FullLock {
    /// When the locked revision was last modified: what its kind of source knows of that goes
    /// before what the server said.
    pub open spec fn modified(self) -> Option<Timestamp> {
        match self.inner.modified() {
            Some(modified) => Some(modified),
            None => self.lock.last_modified,
        }
    }

    /// The locked revision in a few words.
    pub open spec fn info_shown(self) -> Seq<char> {
        info_text(
            text_of(self.inner.version_name()),
            match self.modified() {
                Some(modified) => Some(modified.shown()),
                None => None,
            },
        )
    }

    /// The locked revision in a few words.
    pub fn info(&self) -> (text: String)
        ensures
            text@ == self.info_shown(),
    {
        let modified: Option<Timestamp> = shown_time(
            self.inner.last_modified(),
            self.lock.last_modified,
        );
        let last_modified: Option<String> = match modified {
            Some(modified) => Some(modified.show()),
            None => None,
        };
        show_info(self.inner.version(), last_modified)
    }
}

} // verus!
