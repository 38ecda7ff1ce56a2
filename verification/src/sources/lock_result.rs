//! What locking a source came to.

use vstd::prelude::*;

verus! {

/// The lock of a source, and whether it differs from the one that was there before.
#[derive(Debug, Clone)]
pub enum LockResult<T> {
    /// The lock stands as it was.
    Unchanged(T),
    /// The lock that was there before, if there was one, and the one that takes its place.
    Changed(Option<T>, T),
}

impl<T> LockResult<T> {
    /// The lock that now holds.
    pub open spec fn current_lock(self) -> T {
        match self {
            LockResult::Unchanged(inner) => inner,
            LockResult::Changed(_, new) => new,
        }
    }

    /// The lock that was replaced.
    pub open spec fn old_lock(self) -> Option<T> {
        match self {
            LockResult::Unchanged(_) => None,
            LockResult::Changed(old, _) => old,
        }
    }

    /// The same lock, reported as a change from itself where it was unchanged.
    pub open spec fn as_changed(self) -> LockResult<T> {
        match self {
            LockResult::Unchanged(inner) => LockResult::Changed(Some(inner), inner),
            LockResult::Changed(_, _) => self,
        }
    }

    /// Carries both locks over to another kind of lock: the current one with `f_current`, the old
    /// one, which may get lost on the way, with `f_old`.
    pub fn map<S>(
        self,
        f_old: impl FnOnce(T) -> Option<S>,
        f_current: impl FnOnce(T) -> S,
    ) -> (mapped: LockResult<S>)
        requires
            call_requires(f_current, (self.current_lock(),)),
            self.old_lock() matches Some(old) ==> call_requires(f_old, (old,)),
        ensures
            mapped is Changed <==> self is Changed,
            call_ensures(f_current, (self.current_lock(),), mapped.current_lock()),
            match self.old_lock() {
                Some(old) => call_ensures(f_old, (old,), mapped.old_lock()),
                None => mapped.old_lock() is None,
            },
    {
        match self {
            LockResult::Unchanged(inner) => LockResult::Unchanged(f_current(inner)),
            LockResult::Changed(old, new) => {
                let old = match old {
                    Some(old) => f_old(old),
                    None => None,
                };
                LockResult::Changed(old, f_current(new))
            },
        }
    }

    /// The lock that now holds.
    pub fn current(&self) -> (lock: &T)
        ensures
            *lock == self.current_lock(),
    {
        match self {
            LockResult::Unchanged(inner) => inner,
            LockResult::Changed(_, new) => new,
        }
    }

    /// The lock that was replaced, if there is one.
    pub fn previous(&self) -> (lock: Option<&T>)
        ensures
            match lock {
                Some(lock) => self.old_lock() == Some(*lock),
                None => self.old_lock() is None,
            },
    {
        match self {
            LockResult::Unchanged(_) => None,
            LockResult::Changed(old, _) => old.as_ref(),
        }
    }

    /// The lock that now holds.
    pub fn into_current(self) -> (lock: T)
        ensures
            lock == self.current_lock(),
    {
        match self {
            LockResult::Unchanged(inner) => inner,
            LockResult::Changed(_, new) => new,
        }
    }

    /// Whether the lock differs from the one that was there before.
    pub fn is_changed(&self) -> (changed: bool)
        ensures
            changed == (self is Changed),
    {
        match self {
            LockResult::Unchanged(_) => false,
            LockResult::Changed(_, _) => true,
        }
    }
}

impl<T: Clone> LockResult<T> {
    /// Reports the lock as changed, though it may be the one that was there before. The old lock
    /// is then a clone of the current one.
    pub fn into_changed(self) -> (changed: LockResult<T>)
        ensures
            match self {
                LockResult::Unchanged(inner) => {
                    changed matches LockResult::Changed(Some(old), new) && new == inner && cloned(
                        inner,
                        old,
                    )
                },
                LockResult::Changed(_, _) => changed == self,
            },
    {
        match self {
            LockResult::Unchanged(inner) => LockResult::Changed(Some(inner.clone()), inner),
            LockResult::Changed(_, _) => self,
        }
    }
}

/// Reporting a change twice is reporting it once, keeps the lock that now holds, and always
/// reports a change.
pub proof fn law_as_changed<T>(result: LockResult<T>)
    ensures
        result.as_changed() is Changed,
        result.as_changed().current_lock() == result.current_lock(),
        result.as_changed().as_changed() == result.as_changed(),
        result is Changed ==> result.as_changed() == result,
{
}

} // verus!
