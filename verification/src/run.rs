//! Locking one source from start to end.
//!
//! What a source is locked to may take a request to its server and a fetch of its content. Each
//! value here stands for a point on that way, and says what to do next.

use vstd::prelude::*;

use crate::address::Url;
use crate::lock_file::FullLock;
use crate::lock_file::Lock;
use crate::lock_file::Spec;
use crate::sources::checked_url;
use crate::sources::is_address;
use crate::sources::AnyLock;
use crate::sources::Lock as _;
use crate::sources::LockResult;
use crate::text::copied;
use crate::text::same_text;
use crate::text::text_of;
use crate::timestamp::rfc2822_date_time;
use crate::timestamp::Timestamp;

verus! {

/// The status with which a server says that its content has not changed.
pub const NOT_MODIFIED: u16 = 304;

/// What a server says of its content.
#[derive(Debug)]
pub struct Reply {
    /// The status of the reply.
    pub status: u16,
    /// The `ETag` header.
    pub etag: Option<String>,
    /// The `Last-Modified` header.
    pub last_modified: Option<String>,
}

/// What is known while a source is being locked.
#[derive(Debug)]
pub struct Job {
    /// Whether to unpack what is fetched.
    pub unpack: bool,
    /// Where to fetch from.
    pub url: Url,
    /// What the lock file says of every source, as it was found.
    pub old_lock: Option<Lock>,
    /// What the kind of source says of the revision.
    pub lock: LockResult<AnyLock>,
}

/// What there is to do next.
#[derive(Debug)]
pub enum Next {
    /// To ask the server about its content.
    Request(PendingRequest),
    /// To fetch the content.
    Prefetch(PendingPrefetch),
    /// Nothing is left to do.
    Done(LockResult<FullLock>),
}

/// A lock put together from its two parts.
pub open spec fn with_lock(lock: Lock, inner: AnyLock) -> FullLock {
    FullLock { lock, inner }
}

/// The lock that was in the lock file, where both its parts are known.
pub open spec fn with_old_lock(old_lock: Option<Lock>, inner: AnyLock) -> Option<FullLock> {
    match old_lock {
        Some(lock) => Some(FullLock { lock, inner }),
        None => None,
    }
}

impl Job {
    /// Whether, as far as the files and the kind of source go, the hash in the lock file still
    /// holds: there is one, it is the hash of what is now asked for, and the revision stands as it
    /// was.
    pub open spec fn may_keep_hash(self) -> bool {
        &&& self.old_lock matches Some(old_lock)
        &&& old_lock.unpack == self.unpack
        &&& self.lock is Unchanged
    }

    /// Whether the hash in the lock file still holds.
    fn keeps_hash(&self) -> (keeps: bool)
        ensures
            keeps == self.may_keep_hash(),
    {
        match &self.old_lock {
            Some(old_lock) => old_lock.unpack == self.unpack && !self.lock.is_changed(),
            None => false,
        }
    }

    /// The result, with the hash and what the server said.
    pub open spec fn locked(
        self,
        hash: ssri2::Integrity,
        etag: Option<String>,
        last_modified: Option<Timestamp>,
    ) -> LockResult<FullLock> {
        let lock = Lock { hash, etag, unpack: self.unpack, last_modified };
        match self.lock {
            LockResult::Unchanged(inner) => LockResult::Unchanged(with_lock(lock, inner)),
            LockResult::Changed(Some(old), new) => LockResult::Changed(
                with_old_lock(self.old_lock, old),
                with_lock(lock, new),
            ),
            LockResult::Changed(None, new) => LockResult::Changed(None, with_lock(lock, new)),
        }
    }

    /// The result, with the hash and what the server said.
    fn finish(
        self,
        hash: ssri2::Integrity,
        etag: Option<String>,
        last_modified: Option<Timestamp>,
    ) -> (result: LockResult<FullLock>)
        ensures
            result == self.locked(hash, etag, last_modified),
    {
        let unpack: bool = self.unpack;
        let old_lock = self.old_lock;
        let keep_old = |old: AnyLock| -> (full: Option<FullLock>)
            ensures
                full == with_old_lock(old_lock, old),
        {
            match old_lock {
                Some(lock) => Some(FullLock { lock, inner: old }),
                None => None,
            }
        };
        let lock = Lock { hash, etag, unpack, last_modified };
        let make_current = |current: AnyLock| -> (full: FullLock)
            ensures
                full == with_lock(lock, current),
        {
            FullLock { lock, inner: current }
        };
        self.lock.map(keep_old, make_current)
    }

    /// What there is to do first. Content that never changes needs no question to the server: its
    /// hash is kept where that is allowed, and fetched otherwise.
    pub open spec fn first(self) -> Next {
        if !self.lock.current_lock().always_same() {
            Next::Request(PendingRequest { job: self })
        } else if self.may_keep_hash() {
            Next::Done(self.locked(self.old_lock->0.hash, None, None))
        } else {
            Next::Prefetch(PendingPrefetch { job: self, etag: None, last_modified: None })
        }
    }

    /// What there is to do first.
    pub fn start(self) -> (next: Next)
        ensures
            next == self.first(),
    {
        if !self.lock.current().is_immutable() {
            return Next::Request(PendingRequest { job: self });
        }
        if self.keeps_hash() {
            if let Some(old_lock) = &self.old_lock {
                let hash = old_lock.hash.clone();
                return Next::Done(self.finish(hash, None, None));
            }
        }
        Next::Prefetch(PendingPrefetch { job: self, etag: None, last_modified: None })
    }
}

/// Whether locking a source begins with `next`.
pub open spec fn run_begins_with(
    spec: Spec,
    old_lock: Option<Lock>,
    lock: LockResult<AnyLock>,
    next: Next,
) -> bool {
    exists|url: Url|
        {
            &&& url.read_from(lock.current_lock().url_text(spec.spec@)->0)
            &&& next == #[trigger] (Job { unpack: spec.unpack, url, old_lock, lock }).first()
        }
}

/// Begins to lock a source, given what the spec file and the lock file say of it and what its kind
/// of source says of the revision. There has to be an address to fetch from.
pub fn run_one(spec: &Spec, old_lock: Option<Lock>, lock: LockResult<AnyLock>) -> (next: Next)
    requires
        is_address(lock.current_lock().url_text(spec.spec@)),
    ensures
        run_begins_with(*spec, old_lock, lock, next),
{
    let url = lock.current().url(spec.spec.as_str());
    let job = Job { unpack: spec.unpack, url, old_lock, lock };
    job.start()
}

/// Begins to lock a source, where there is an address to fetch from.
pub fn checked_run_one(
    spec: &Spec,
    old_lock: Option<Lock>,
    lock: LockResult<AnyLock>,
) -> (next: Option<Next>)
    ensures
        match next {
            Some(next) => {
                &&& is_address(lock.current_lock().url_text(spec.spec@))
                &&& run_begins_with(*spec, old_lock, lock, next)
            },
            None => !is_address(lock.current_lock().url_text(spec.spec@)),
        },
{
    match checked_url(lock.current(), spec.spec.as_str()) {
        Some(_) => Some(run_one(spec, old_lock, lock)),
        None => None,
    }
}

/// The point at which the server is to be asked about its content.
#[derive(Debug)]
pub struct PendingRequest {
    /// What is known.
    pub job: Job,
}

impl PendingRequest {
    /// The tag in the lock file.
    pub open spec fn old_etag(self) -> Option<String> {
        match self.job.old_lock {
            Some(old_lock) => old_lock.etag,
            None => None,
        }
    }

    /// The tag to send as `If-None-Match`, so that the server may answer that its content is the
    /// one with that tag.
    pub fn if_none_match(&self) -> (etag: Option<&String>)
        ensures
            match etag {
                Some(etag) => self.old_etag() == Some(*etag),
                None => self.old_etag() is None,
            },
    {
        match &self.job.old_lock {
            Some(old_lock) => old_lock.etag.as_ref(),
            None => None,
        }
    }

    /// The tag of the content, given the status and the `ETag` header of the reply. Content that
    /// has not changed has the tag that is in the lock file, whatever the header says.
    pub open spec fn new_etag(self, status: u16, etag: Option<String>) -> Option<String> {
        if status == NOT_MODIFIED {
            self.old_etag()
        } else {
            etag
        }
    }

    /// Whether the hash in the lock file is kept, given the status and the `ETag` header of the
    /// reply: nothing may speak against it, and the content must have a tag, the one that is in
    /// the lock file.
    pub open spec fn hash_kept(self, status: u16, etag: Option<String>) -> bool {
        &&& self.job.may_keep_hash()
        &&& self.new_etag(status, etag) is Some
        &&& text_of(self.new_etag(status, etag)) == text_of(self.old_etag())
    }

    /// What there is to do after the reply. Where the hash is not kept the content has changed,
    /// though the revision may stand as it was.
    pub open spec fn after(
        self,
        status: u16,
        etag: Option<String>,
        last_modified: Option<Timestamp>,
    ) -> Next {
        let new_etag = self.new_etag(status, etag);
        if self.hash_kept(status, etag) {
            Next::Done(self.job.locked(self.job.old_lock->0.hash, new_etag, last_modified))
        } else {
            Next::Prefetch(
                PendingPrefetch {
                    job: Job {
                        unpack: self.job.unpack,
                        url: self.job.url,
                        old_lock: self.job.old_lock,
                        lock: self.job.lock.as_changed(),
                    },
                    etag: new_etag,
                    last_modified,
                },
            )
        }
    }

    /// What there is to do after the reply, given when the server says that its content was last
    /// modified.
    pub fn replied(
        self,
        status: u16,
        etag: Option<String>,
        last_modified: Option<Timestamp>,
    ) -> (next: Next)
        ensures
            next == self.after(status, etag, last_modified),
    {
        let old_etag: Option<String> = match &self.job.old_lock {
            Some(old_lock) => copied(&old_lock.etag),
            None => None,
        };
        let same: bool;
        let new_etag: Option<String>;
        if status == NOT_MODIFIED {
            same = old_etag.is_some();
            new_etag = old_etag;
        } else {
            same = etag.is_some() && same_text(&etag, &old_etag);
            new_etag = etag;
        }
        if same && self.job.keeps_hash() {
            if let Some(old_lock) = &self.job.old_lock {
                let hash = old_lock.hash.clone();
                return Next::Done(self.job.finish(hash, new_etag, last_modified));
            }
        }
        let job = Job {
            unpack: self.job.unpack,
            url: self.job.url,
            old_lock: self.job.old_lock,
            lock: self.job.lock.into_changed(),
        };
        Next::Prefetch(PendingPrefetch { job, etag: new_etag, last_modified })
    }

    /// What there is to do after the reply.
    pub fn reply(self, reply: Reply) -> (next: Next)
        ensures
            exists|modified: Option<Timestamp>|
                {
                    &&& modified_of(text_of(reply.last_modified), modified)
                    &&& next == #[trigger] self.after(reply.status, reply.etag, modified)
                },
    {
        let modified: Option<Timestamp> = match &reply.last_modified {
            Some(text) => Timestamp::from_rfc2822(text.as_str()),
            None => None,
        };
        assert(modified_of(text_of(reply.last_modified), modified));
        self.replied(reply.status, reply.etag, modified)
    }
}

/// Whether `modified` is what a `Last-Modified` header says. A header that cannot be read says
/// nothing.
pub open spec fn modified_of(header: Option<Seq<char>>, modified: Option<Timestamp>) -> bool {
    match (header, modified) {
        (Some(header), Some(modified)) => rfc2822_date_time(header) == Some(modified.parts()),
        (Some(header), None) => rfc2822_date_time(header) is None,
        (None, _) => modified is None,
    }
}

/// The point at which the content is to be fetched.
#[derive(Debug)]
pub struct PendingPrefetch {
    /// What is known.
    pub job: Job,
    /// The tag of the content.
    pub etag: Option<String>,
    /// When the content was last modified.
    pub last_modified: Option<Timestamp>,
}

impl PendingPrefetch {
    /// The result, with the hash of what was fetched.
    pub open spec fn result(self, hash: ssri2::Integrity) -> LockResult<FullLock> {
        self.job.locked(hash, self.etag, self.last_modified)
    }

    /// The result, with the hash of what was fetched.
    pub fn prefetched(self, hash: ssri2::Integrity) -> (result: LockResult<FullLock>)
        ensures
            result == self.result(hash),
    {
        self.job.finish(hash, self.etag, self.last_modified)
    }
}

/// What there is to do once the server, where it has to be asked, has replied.
pub open spec fn settled(
    job: Job,
    status: u16,
    etag: Option<String>,
    last_modified: Option<Timestamp>,
) -> Next {
    match job.first() {
        Next::Request(request) => request.after(status, etag, last_modified),
        next => next,
    }
}

/// The lock that the run comes to, with the hash of what is fetched where anything is.
pub open spec fn new_lock(next: Next, hash: ssri2::Integrity) -> FullLock
    recommends
        next !is Request,
{
    match next {
        Next::Done(result) => result.current_lock(),
        _ => next->Prefetch_0.result(hash).current_lock(),
    }
}

/// The hash in the lock file is kept, and nothing is fetched, exactly where three things hold:
/// what is fetched is still to be unpacked or not as it was, the revision stands as it was, and,
/// for content that may change, the server gives it a tag, the one that is in the lock file.
/// Otherwise the content is fetched; one question to the server is always enough to tell.
pub proof fn law_when_the_hash_is_kept(
    job: Job,
    status: u16,
    etag: Option<String>,
    last_modified: Option<Timestamp>,
)
    ensures
        settled(job, status, etag, last_modified) is Done <==> {
            let asked = PendingRequest { job };
            &&& job.old_lock matches Some(old_lock)
            &&& old_lock.unpack == job.unpack
            &&& job.lock is Unchanged
            &&& job.lock.current_lock().always_same() || {
                &&& asked.new_etag(status, etag) is Some
                &&& text_of(asked.new_etag(status, etag)) == text_of(asked.old_etag())
            }
        },
        settled(job, status, etag, last_modified) !is Request,
{
}

/// The server is asked exactly about content that may change. Of content that never changes the
/// new lock holds no tag and no time.
pub proof fn law_when_the_server_is_asked(job: Job, hash: ssri2::Integrity)
    ensures
        job.first() is Request <==> !job.lock.current_lock().always_same(),
        job.first() !is Request ==> new_lock(job.first(), hash).lock.etag is None,
        job.first() !is Request ==> new_lock(job.first(), hash).lock.last_modified is None,
{
}

/// When something was last modified plays no part in telling whether it changed, neither what the
/// lock file says of it nor what the server says.
pub proof fn law_times_play_no_part(
    job: Job,
    other: Job,
    status: u16,
    etag: Option<String>,
    last_modified: Option<Timestamp>,
    other_modified: Option<Timestamp>,
    hash: ssri2::Integrity,
)
    requires
        other.unpack == job.unpack,
        other.lock == job.lock,
        match (job.old_lock, other.old_lock) {
            (Some(a), Some(b)) => a.hash == b.hash && a.etag == b.etag && a.unpack == b.unpack,
            (None, None) => true,
            _ => false,
        },
    ensures
        ({
            let next = settled(job, status, etag, last_modified);
            let other_next = settled(other, status, etag, other_modified);
            &&& next is Done <==> other_next is Done
            &&& new_lock(next, hash).lock.hash == new_lock(other_next, hash).lock.hash
            &&& new_lock(next, hash).lock.etag == new_lock(other_next, hash).lock.etag
            &&& new_lock(next, hash).lock.unpack == new_lock(other_next, hash).lock.unpack
            &&& new_lock(next, hash).inner == new_lock(other_next, hash).inner
            &&& next is Done ==> (next->Done_0 is Changed <==> other_next->Done_0 is Changed)
            &&& next is Prefetch ==> (next->Prefetch_0.result(hash) is Changed
                <==> other_next->Prefetch_0.result(hash) is Changed)
        }),
{
}

/// A kept hash is the one in the lock file, and is no change.
pub proof fn law_a_kept_hash_is_the_old_one(
    job: Job,
    status: u16,
    etag: Option<String>,
    last_modified: Option<Timestamp>,
)
    ensures
        settled(job, status, etag, last_modified) matches Next::Done(result) ==> {
            &&& result is Unchanged
            &&& result.current_lock().lock.hash == job.old_lock->0.hash
        },
{
}

/// However the run goes, its lock is of the revision that the kind of source gave, says whether
/// the content was unpacked as the spec file asks, and holds the hash of what was fetched where
/// anything was.
pub proof fn law_the_new_lock(
    job: Job,
    status: u16,
    etag: Option<String>,
    last_modified: Option<Timestamp>,
    hash: ssri2::Integrity,
)
    ensures
        ({
            let next = settled(job, status, etag, last_modified);
            let lock = new_lock(next, hash);
            &&& lock.inner == job.lock.current_lock()
            &&& lock.lock.unpack == job.unpack
            &&& next is Prefetch ==> lock.lock.hash == hash
        }),
{
}

/// Content that may change is never fetched without a change being reported: whatever its hash
/// turns out to be, and though the revision may stand as it was.
pub proof fn law_a_fetch_is_reported(
    job: Job,
    status: u16,
    etag: Option<String>,
    last_modified: Option<Timestamp>,
    hash: ssri2::Integrity,
)
    requires
        !job.lock.current_lock().always_same(),
    ensures
        settled(job, status, etag, last_modified) matches Next::Prefetch(fetch) ==> fetch.result(
            hash,
        ) is Changed,
{
}

/// Where nothing else speaks against it, a server that says that its content has not changed is
/// taken at its word: hash and tag stay what they were. It has to have given a tag before.
pub proof fn law_not_modified(job: Job, etag: Option<String>, last_modified: Option<Timestamp>)
    requires
        !job.lock.current_lock().always_same(),
        job.may_keep_hash(),
        job.old_lock->0.etag is Some,
    ensures
        settled(job, NOT_MODIFIED, etag, last_modified) == Next::Done(
            job.locked(job.old_lock->0.hash, job.old_lock->0.etag, last_modified),
        ),
{
}

/// A second run over a revision that never changes and has not been replaced does nothing, and
/// comes to the very lock of the first run.
pub proof fn law_a_second_run_keeps_the_lock(first: Job, second: Job, hash: ssri2::Integrity)
    requires
        first.lock.current_lock().always_same(),
        second.old_lock == Some(new_lock(first.first(), hash).lock),
        second.lock == LockResult::Unchanged(new_lock(first.first(), hash).inner),
        second.unpack == first.unpack,
    ensures
        second.first() == Next::Done(LockResult::Unchanged(new_lock(first.first(), hash))),
{
}

/// A second run over content that may change keeps the hash of the first run, where the server
/// gave the content a tag and gives it the same tag again.
pub proof fn law_a_second_run_keeps_the_hash(
    first: Job,
    status: u16,
    etag: Option<String>,
    last_modified: Option<Timestamp>,
    hash: ssri2::Integrity,
    second: Job,
    again: Option<String>,
    modified_again: Option<Timestamp>,
)
    requires
        !first.lock.current_lock().always_same(),
        status != NOT_MODIFIED,
        etag is Some,
        text_of(again) == text_of(etag),
        second.old_lock == Some(new_lock(settled(first, status, etag, last_modified), hash).lock),
        second.lock == LockResult::Unchanged(
            new_lock(settled(first, status, etag, last_modified), hash).inner,
        ),
        second.unpack == first.unpack,
    ensures
        settled(second, status, again, modified_again) matches Next::Done(result) && result
            is Unchanged && result.current_lock().lock.hash == new_lock(
            settled(first, status, etag, last_modified),
            hash,
        ).lock.hash,
{
}

} // verus!
