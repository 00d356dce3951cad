//! A replica's store, narrowed to one session's view.

use std::collections::VecDeque;

use vstd::prelude::*;

use crate::filter::entry::{Fingerprint, Range, RecordIdentifier, SignedEntry};
use crate::filter::scan::{
    admitted, count_of_scan, digest_of_scan, first_of_scan, is_count, is_digest, is_first, judged,
    takes_all, FilteredIter,
};

verus! {

/// A replica's store, as reconciliation uses it. Every operation may change the store: a read may
/// have to make writes visible first. Nothing is promised of what a store answers.
pub trait Store {
    /// What an entry holds beside what reconciliation reads.
    type Body;

    /// What a prefix removal looks at of an entry.
    type Record;

    /// How the store fails.
    type Error;

    /// The first identifier, or the default one if there are no entries.
    fn get_first(&mut self) -> Result<RecordIdentifier, Self::Error>;

    /// The digest of the entries in a range.
    fn get_fingerprint(&mut self, range: &Range) -> Result<Fingerprint, Self::Error>;

    /// The entries in a range.
    fn get_range(&mut self, range: Range) -> Result<
        VecDeque<Result<SignedEntry<Self::Body>, Self::Error>>,
        Self::Error,
    >;

    /// The entry under an identifier.
    fn get(&mut self, key: &RecordIdentifier) -> Result<
        Option<SignedEntry<Self::Body>>,
        Self::Error,
    >;

    /// The entries whose identifier starts with that of `prefix`.
    fn prefixed_by(&mut self, prefix: &RecordIdentifier) -> Result<
        VecDeque<Result<SignedEntry<Self::Body>, Self::Error>>,
        Self::Error,
    >;

    /// All entries.
    fn all(&mut self) -> Result<
        VecDeque<Result<SignedEntry<Self::Body>, Self::Error>>,
        Self::Error,
    >;

    /// The entries whose identifier is a prefix of `key`.
    fn prefixes_of(&mut self, key: &RecordIdentifier) -> Result<
        VecDeque<Result<SignedEntry<Self::Body>, Self::Error>>,
        Self::Error,
    >;

    /// Writes an entry.
    fn entry_put(&mut self, entry: SignedEntry<Self::Body>) -> Result<(), Self::Error>;

    /// Removes an entry.
    fn entry_remove(&mut self, key: &RecordIdentifier) -> Result<
        Option<SignedEntry<Self::Body>>,
        Self::Error,
    >;

    /// Removes the entries under a prefix that the predicate picks, and counts them.
    fn remove_prefix_filtered<P: Fn(&Self::Record) -> bool>(
        &mut self,
        prefix: &RecordIdentifier,
        predicate: P,
    ) -> Result<usize, Self::Error>;
}

/// A store of public keys.
pub trait PublicKeyStore {
    /// A public key.
    type PublicKey;

    /// Why bytes are no public key.
    type KeyError;

    /// The public key with these bytes.
    fn public_key(&self, id: &[u8; 32]) -> Result<Self::PublicKey, Self::KeyError>;
}

/// A replica store narrowed to one session's view.
///
/// Without a filter every operation is the inner store's. With one, reads yield only admitted
/// entries; the first key is the first admitted one, because the first physical key would show
/// that an entry exists which is not admitted.
///
/// In the contracts below, `store` is the inner store as it is handed to one of its operations: the
/// session store goes on with what the operation answers and leaves.
pub struct SessionStore<S, F> {
    inner: S,
    filter: Option<F>,
}

impl<S, F> SessionStore<S, F> {
    /// The store that is narrowed.
    pub closed spec fn inner(self) -> S {
        self.inner
    }

    /// What it is narrowed to.
    pub closed spec fn filter(self) -> Option<F> {
        self.filter
    }

    /// Narrows a store.
    pub fn new(inner: S, filter: Option<F>) -> (s: Self)
        ensures
            s.inner() == inner,
            s.filter() == filter,
    {
        SessionStore { inner, filter }
    }
}

/// Whether a narrowed scan is that of the inner store, to be looked at through the filter.
pub open spec fn narrowed<B, E, F: Fn(&SignedEntry<B>) -> bool>(
    filter: Option<F>,
    scan: Result<VecDeque<Result<SignedEntry<B>, E>>, E>,
    r: Result<FilteredIter<'_, B, E, F>, E>,
) -> bool {
    match (scan, r) {
        (Ok(items), Ok(iter)) => iter.rest() == items@ && iter.filter() == filter,
        (Err(e), Err(f)) => e == f,
        _ => false,
    }
}

/// Whether `r` says that nothing was counted.
pub open spec fn is_none_of<E>(count: Result<usize, E>, r: Result<bool, E>) -> bool {
    r == (match count {
        Ok(n) => Ok::<bool, E>(n == 0),
        Err(e) => Err(e),
    })
}

impl<B, S: Store<Body = B>, F: Fn(&SignedEntry<B>) -> bool> SessionStore<S, F> {
    /// The first key that the session sees.
    ///
    /// With a filter, that of the first admitted entry of a scan over everything, or the default
    /// key when nothing is admitted: just as for an empty replica.
    pub fn get_first(&mut self) -> (r: Result<RecordIdentifier, S::Error>)
        requires
            takes_all(old(self).filter()),
        ensures
            final(self).filter() == old(self).filter(),
            old(self).filter() is None ==> exists|store: &mut S|
                {
                    &&& #[trigger] call_ensures(S::get_first, (store,), r)
                    &&& *store == old(self).inner()
                    &&& *final(store) == final(self).inner()
                },
            old(self).filter() is Some ==> exists|
                store: &mut S,
                range: Range,
                scan: Result<VecDeque<Result<SignedEntry<B>, S::Error>>, S::Error>,
            |
                {
                    &&& #[trigger] call_ensures(S::get_range, (store, range), scan)
                    &&& *store == old(self).inner()
                    &&& *final(store) == final(self).inner()
                    &&& range.is_full()
                    &&& match scan {
                        Err(e) => r == Err::<RecordIdentifier, S::Error>(e),
                        Ok(items) => is_first(old(self).filter(), items@, r),
                    }
                },
    {
        if self.filter.is_none() {
            return self.inner.get_first();
        }
        let range = Range::full();
        let scan = self.inner.get_range(range);
        match scan {
            Err(e) => Err(e),
            Ok(items) => first_of_scan(&self.filter, items),
        }
    }

    /// The digest of what the session sees in a range; `empty` is that of no entries.
    ///
    /// With a filter, it is computed anew over the filtered range.
    pub fn get_fingerprint(&mut self, range: Range, empty: Fingerprint) -> (r: Result<
        Fingerprint,
        S::Error,
    >)
        requires
            takes_all(old(self).filter()),
        ensures
            final(self).filter() == old(self).filter(),
            old(self).filter() is None ==> exists|store: &mut S|
                {
                    &&& #[trigger] call_ensures(S::get_fingerprint, (store, &range), r)
                    &&& *store == old(self).inner()
                    &&& *final(store) == final(self).inner()
                },
            old(self).filter() is Some ==> exists|
                store: &mut S,
                scan: Result<VecDeque<Result<SignedEntry<B>, S::Error>>, S::Error>,
            |
                {
                    &&& #[trigger] call_ensures(S::get_range, (store, range), scan)
                    &&& *store == old(self).inner()
                    &&& *final(store) == final(self).inner()
                    &&& match scan {
                        Err(e) => r == Err::<Fingerprint, S::Error>(e),
                        Ok(items) => is_digest(old(self).filter(), empty, items@, r),
                    }
                },
    {
        if self.filter.is_none() {
            return self.inner.get_fingerprint(&range);
        }
        let scan = self.inner.get_range(range);
        match scan {
            Err(e) => Err(e),
            Ok(items) => digest_of_scan(&self.filter, empty, items),
        }
    }

    /// What the session sees in a range.
    pub fn get_range(&mut self, range: Range) -> (r: Result<
        FilteredIter<'_, B, S::Error, F>,
        S::Error,
    >)
        ensures
            final(self).filter() == old(self).filter(),
            exists|
                store: &mut S,
                scan: Result<VecDeque<Result<SignedEntry<B>, S::Error>>, S::Error>,
            |
                {
                    &&& #[trigger] call_ensures(S::get_range, (store, range), scan)
                    &&& *store == old(self).inner()
                    &&& *final(store) == final(self).inner()
                    &&& narrowed(old(self).filter(), scan, r)
                },
    {
        let scan = self.inner.get_range(range);
        match scan {
            Err(e) => Err(e),
            Ok(items) => Ok(FilteredIter::new(items, &self.filter)),
        }
    }

    /// What the session sees under a prefix.
    pub fn prefixed_by(&mut self, prefix: &RecordIdentifier) -> (r: Result<
        FilteredIter<'_, B, S::Error, F>,
        S::Error,
    >)
        ensures
            final(self).filter() == old(self).filter(),
            exists|
                store: &mut S,
                scan: Result<VecDeque<Result<SignedEntry<B>, S::Error>>, S::Error>,
            |
                {
                    &&& #[trigger] call_ensures(S::prefixed_by, (store, prefix), scan)
                    &&& *store == old(self).inner()
                    &&& *final(store) == final(self).inner()
                    &&& narrowed(old(self).filter(), scan, r)
                },
    {
        let scan = self.inner.prefixed_by(prefix);
        match scan {
            Err(e) => Err(e),
            Ok(items) => Ok(FilteredIter::new(items, &self.filter)),
        }
    }

    /// All that the session sees.
    pub fn all(&mut self) -> (r: Result<FilteredIter<'_, B, S::Error, F>, S::Error>)
        ensures
            final(self).filter() == old(self).filter(),
            exists|
                store: &mut S,
                scan: Result<VecDeque<Result<SignedEntry<B>, S::Error>>, S::Error>,
            |
                {
                    &&& #[trigger] call_ensures(S::all, (store,), scan)
                    &&& *store == old(self).inner()
                    &&& *final(store) == final(self).inner()
                    &&& narrowed(old(self).filter(), scan, r)
                },
    {
        let scan = self.inner.all();
        match scan {
            Err(e) => Err(e),
            Ok(items) => Ok(FilteredIter::new(items, &self.filter)),
        }
    }

    /// The entry under a key, if the session sees it.
    pub fn get(&mut self, key: &RecordIdentifier) -> (r: Result<Option<SignedEntry<B>>, S::Error>)
        requires
            takes_all(old(self).filter()),
        ensures
            final(self).filter() == old(self).filter(),
            exists|store: &mut S, found: Result<Option<SignedEntry<B>>, S::Error>|
                {
                    &&& #[trigger] call_ensures(S::get, (store, key), found)
                    &&& *store == old(self).inner()
                    &&& *final(store) == final(self).inner()
                    &&& match found {
                        Ok(Some(entry)) => exists|verdict: bool|
                            {
                                &&& #[trigger] judged(old(self).filter(), entry, verdict)
                                &&& r == (if verdict {
                                    found
                                } else {
                                    Ok(None)
                                })
                            },
                        _ => r == found,
                    }
                },
    {
        let found = self.inner.get(key);
        match found {
            Err(e) => Err(e),
            Ok(None) => Ok(None),
            Ok(Some(entry)) => if admitted(&self.filter, &entry) {
                Ok(Some(entry))
            } else {
                Ok(None)
            },
        }
    }

    /// The number of entries that the session sees.
    pub fn len(&mut self) -> (r: Result<usize, S::Error>)
        requires
            takes_all(old(self).filter()),
        ensures
            final(self).filter() == old(self).filter(),
            exists|
                store: &mut S,
                range: Range,
                scan: Result<VecDeque<Result<SignedEntry<B>, S::Error>>, S::Error>,
            |
                {
                    &&& #[trigger] call_ensures(S::get_range, (store, range), scan)
                    &&& *store == old(self).inner()
                    &&& *final(store) == final(self).inner()
                    &&& range.is_full()
                    &&& match scan {
                        Err(e) => r == Err::<usize, S::Error>(e),
                        Ok(items) => is_count(old(self).filter(), items@, r),
                    }
                },
    {
        let range = Range::full();
        let scan = self.inner.get_range(range);
        match scan {
            Err(e) => Err(e),
            Ok(items) => count_of_scan(&self.filter, items),
        }
    }

    /// Whether the session sees nothing.
    pub fn is_empty(&mut self) -> (r: Result<bool, S::Error>)
        requires
            takes_all(old(self).filter()),
        ensures
            final(self).filter() == old(self).filter(),
            exists|
                store: &mut S,
                range: Range,
                scan: Result<VecDeque<Result<SignedEntry<B>, S::Error>>, S::Error>,
                count: Result<usize, S::Error>,
            |
                #![trigger call_ensures(S::get_range, (store, range), scan), is_none_of(count, r)]
                {
                    &&& call_ensures(S::get_range, (store, range), scan)
                    &&& *store == old(self).inner()
                    &&& *final(store) == final(self).inner()
                    &&& range.is_full()
                    &&& is_none_of(count, r)
                    &&& match scan {
                        Err(e) => count == Err::<usize, S::Error>(e),
                        Ok(items) => is_count(old(self).filter(), items@, count),
                    }
                },
    {
        let count = self.len();
        let ghost counted = count;
        let r = match count {
            Err(e) => Err(e),
            Ok(n) => Ok(n == 0),
        };
        assert(is_none_of(counted, r));
        r
    }

    /// The entries whose key is a prefix of `key`, unfiltered.
    pub fn prefixes_of(&mut self, key: &RecordIdentifier) -> (r: Result<
        VecDeque<Result<SignedEntry<B>, S::Error>>,
        S::Error,
    >)
        ensures
            final(self).filter() == old(self).filter(),
            exists|store: &mut S|
                {
                    &&& #[trigger] call_ensures(S::prefixes_of, (store, key), r)
                    &&& *store == old(self).inner()
                    &&& *final(store) == final(self).inner()
                },
    {
        self.inner.prefixes_of(key)
    }

    /// Writes an entry, unfiltered.
    pub fn entry_put(&mut self, entry: SignedEntry<B>) -> (r: Result<(), S::Error>)
        ensures
            final(self).filter() == old(self).filter(),
            exists|store: &mut S|
                {
                    &&& #[trigger] call_ensures(S::entry_put, (store, entry), r)
                    &&& *store == old(self).inner()
                    &&& *final(store) == final(self).inner()
                },
    {
        self.inner.entry_put(entry)
    }

    /// Removes an entry, unfiltered.
    pub fn entry_remove(&mut self, key: &RecordIdentifier) -> (r: Result<
        Option<SignedEntry<B>>,
        S::Error,
    >)
        ensures
            final(self).filter() == old(self).filter(),
            exists|store: &mut S|
                {
                    &&& #[trigger] call_ensures(S::entry_remove, (store, key), r)
                    &&& *store == old(self).inner()
                    &&& *final(store) == final(self).inner()
                },
    {
        self.inner.entry_remove(key)
    }

    /// Removes the entries under a prefix that the predicate picks, unfiltered.
    pub fn remove_prefix_filtered<P: Fn(&S::Record) -> bool>(
        &mut self,
        prefix: &RecordIdentifier,
        predicate: P,
    ) -> (r: Result<usize, S::Error>)
        ensures
            final(self).filter() == old(self).filter(),
            exists|store: &mut S|
                {
                    &&& #[trigger] call_ensures(
                        S::remove_prefix_filtered::<P>,
                        (store, prefix, predicate),
                        r,
                    )
                    &&& *store == old(self).inner()
                    &&& *final(store) == final(self).inner()
                },
    {
        self.inner.remove_prefix_filtered(prefix, predicate)
    }
}

impl<S: PublicKeyStore, F> SessionStore<S, F> {
    /// The public key with these bytes.
    pub fn public_key(&self, id: &[u8; 32]) -> (r: Result<S::PublicKey, S::KeyError>)
        ensures
            call_ensures(S::public_key, (&self.inner(), id), r),
    {
        self.inner.public_key(id)
    }
}

} // verus!
