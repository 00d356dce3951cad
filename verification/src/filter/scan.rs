//! Scans of a store, narrowed to what a filter admits.

use std::collections::VecDeque;

use vstd::prelude::*;

use crate::filter::entry::{combined, default_id, Fingerprint, RecordIdentifier, SignedEntry};

verus! {

/// Whether `verdict` is one that the filter can give of an entry (no filter admits all).
pub open spec fn judged<B, F: Fn(&SignedEntry<B>) -> bool>(
    filter: Option<F>,
    entry: SignedEntry<B>,
    verdict: bool,
) -> bool {
    match filter {
        None => verdict,
        Some(f) => f.ensures((&entry,), verdict),
    }
}

/// Whether the filter, if there is one, takes every entry.
pub open spec fn takes_all<B, F: Fn(&SignedEntry<B>) -> bool>(filter: Option<F>) -> bool {
    filter matches Some(f) ==> forall|e: &SignedEntry<B>| #[trigger] f.requires((e,))
}

/// Whether an entry passes the session's filter (no filter admits all).
pub fn admitted<B, F: Fn(&SignedEntry<B>) -> bool>(
    filter: &Option<F>,
    entry: &SignedEntry<B>,
) -> (b: bool)
    requires
        takes_all(*filter),
    ensures
        judged(*filter, *entry, b),
{
    match filter {
        None => true,
        Some(f) => f(entry),
    }
}

/// Whether an item of a scan is shown, given the verdict on it: errors always are.
pub open spec fn shown<B, E>(item: Result<SignedEntry<B>, E>, verdict: bool) -> bool {
    item is Err || verdict
}

/// The items of a scan that are shown, given the verdicts on them.
pub open spec fn kept<B, E>(
    items: Seq<Result<SignedEntry<B>, E>>,
    verdicts: Seq<bool>,
) -> Seq<Result<SignedEntry<B>, E>>
    decreases items.len(),
{
    if items.len() == 0 {
        Seq::empty()
    } else {
        let before = kept(items.drop_last(), verdicts.drop_last());
        if shown(items.last(), verdicts.last()) {
            before.push(items.last())
        } else {
            before
        }
    }
}

/// Whether these are verdicts that the filter can give on the items, one each.
pub open spec fn judged_all<B, E, F: Fn(&SignedEntry<B>) -> bool>(
    filter: Option<F>,
    items: Seq<Result<SignedEntry<B>, E>>,
    verdicts: Seq<bool>,
) -> bool {
    &&& verdicts.len() == items.len()
    &&& forall|i: int|
        0 <= i < items.len() && items[i] is Ok ==> judged(
            filter,
            items[i]->Ok_0,
            #[trigger] verdicts[i],
        )
}

/// What the first of the shown items says: its key, or its error; the default key if there is none.
pub open spec fn first_key<B, E>(items: Seq<Result<SignedEntry<B>, E>>) -> Result<Seq<u8>, E> {
    if items.len() == 0 {
        Ok(default_id())
    } else {
        match items[0] {
            Ok(entry) => Ok(entry.id@),
            Err(e) => Err(e),
        }
    }
}

/// The digest of the shown items added to `start`, or the first error among them.
pub open spec fn digest<B, E>(
    start: Seq<u8>,
    items: Seq<Result<SignedEntry<B>, E>>,
) -> Result<Seq<u8>, E>
    decreases items.len(),
{
    if items.len() == 0 {
        Ok(start)
    } else {
        match digest(start, items.drop_last()) {
            Err(e) => Err(e),
            Ok(fp) => match items.last() {
                Err(e) => Err(e),
                Ok(entry) => Ok(combined(fp, entry.fingerprint@)),
            },
        }
    }
}

/// How many of the shown items there are, or the first error among them.
pub open spec fn counted<B, E>(items: Seq<Result<SignedEntry<B>, E>>) -> Result<nat, E>
    decreases items.len(),
{
    if items.len() == 0 {
        Ok(0)
    } else {
        match counted(items.drop_last()) {
            Err(e) => Err(e),
            Ok(n) => match items.last() {
                Err(e) => Err(e),
                Ok(_) => Ok(n + 1),
            },
        }
    }
}

/// What is shown of two scans on end is what is shown of the one, then of the other.
proof fn lemma_kept_append<B, E>(
    a: Seq<Result<SignedEntry<B>, E>>,
    b: Seq<Result<SignedEntry<B>, E>>,
    va: Seq<bool>,
    vb: Seq<bool>,
)
    requires
        va.len() == a.len(),
        vb.len() == b.len(),
    ensures
        kept(a + b, va + vb) == kept(a, va) + kept(b, vb),
    decreases b.len(),
{
    if b.len() == 0 {
        assert(a + b =~= a);
        assert(va + vb =~= va);
        assert(kept(a, va) + kept(b, vb) =~= kept(a, va));
    } else {
        lemma_kept_append(a, b.drop_last(), va, vb.drop_last());
        assert((a + b).drop_last() =~= a + b.drop_last());
        assert((va + vb).drop_last() =~= va + vb.drop_last());
        assert(kept(a + b, va + vb) =~= kept(a, va) + kept(b, vb));
    }
}

/// Verdicts on two scans, on end, are verdicts on the two scans on end.
proof fn lemma_judged_append<B, E, F: Fn(&SignedEntry<B>) -> bool>(
    filter: Option<F>,
    a: Seq<Result<SignedEntry<B>, E>>,
    b: Seq<Result<SignedEntry<B>, E>>,
    va: Seq<bool>,
    vb: Seq<bool>,
)
    requires
        judged_all(filter, a, va),
        judged_all(filter, b, vb),
    ensures
        judged_all(filter, a + b, va + vb),
{
    let v = va + vb;
    assert forall|i: int| 0 <= i < (a + b).len() && (a + b)[i] is Ok implies judged(
        filter,
        (a + b)[i]->Ok_0,
        #[trigger] v[i],
    ) by {
        if i >= a.len() {
            assert(v[i] == vb[i - a.len()]);
        } else {
            assert(v[i] == va[i]);
        }
    }
}

/// Whether looking at the first `n` items of `rest`, with these verdicts, shows `r` and leaves
/// `after`.
pub open spec fn yields<B, E, F: Fn(&SignedEntry<B>) -> bool>(
    filter: Option<F>,
    rest: Seq<Result<SignedEntry<B>, E>>,
    n: int,
    verdicts: Seq<bool>,
    r: Option<Result<SignedEntry<B>, E>>,
    after: Seq<Result<SignedEntry<B>, E>>,
) -> bool {
    &&& 0 <= n <= rest.len()
    &&& judged_all(filter, rest.take(n), verdicts)
    &&& kept(rest.take(n), verdicts) == (match r {
        Some(item) => seq![item],
        None => Seq::empty(),
    })
    &&& after == rest.skip(n)
    &&& r is None ==> n == rest.len()
}

/// A scan narrowed to admitted entries; errors pass through.
pub struct FilteredIter<'a, B, E, F> {
    inner: VecDeque<Result<SignedEntry<B>, E>>,
    filter: &'a Option<F>,
}

impl<'a, B, E, F> FilteredIter<'a, B, E, F> {
    /// The items of the scan that were not looked at yet.
    pub closed spec fn rest(self) -> Seq<Result<SignedEntry<B>, E>> {
        self.inner@
    }

    /// What the scan is narrowed to.
    pub closed spec fn filter(self) -> Option<F> {
        *self.filter
    }
}

impl<'a, B, E, F: Fn(&SignedEntry<B>) -> bool> FilteredIter<'a, B, E, F> {
    /// Narrows a scan.
    pub fn new(inner: VecDeque<Result<SignedEntry<B>, E>>, filter: &'a Option<F>) -> (it: Self)
        ensures
            it.rest() == inner@,
            it.filter() == *filter,
    {
        FilteredIter { inner, filter }
    }

    /// The next item that is shown.
    pub fn next(&mut self) -> (r: Option<Result<SignedEntry<B>, E>>)
        requires
            takes_all(old(self).filter()),
        ensures
            final(self).filter() == old(self).filter(),
            exists|n: int, verdicts: Seq<bool>| #[trigger]
                yields(old(self).filter(), old(self).rest(), n, verdicts, r, final(self).rest()),
    {
        let ghost all = self.rest();
        let ghost mut n: int = 0;
        let ghost mut verdicts: Seq<bool> = Seq::empty();
        assert(all.skip(0) =~= all);
        loop
            invariant
                takes_all(self.filter()),
                self.filter() == old(self).filter(),
                all == old(self).rest(),
                0 <= n <= all.len(),
                self.rest() == all.skip(n),
                judged_all(self.filter(), all.take(n), verdicts),
                kept(all.take(n), verdicts) == Seq::<Result<SignedEntry<B>, E>>::empty(),
            decreases all.len() - n,
        {
            let item = match self.inner.pop_front() {
                None => {
                    assert(yields(self.filter(), all, n, verdicts, None, self.rest()));
                    return None;
                },
                Some(item) => item,
            };
            let verdict = match &item {
                Err(_) => true,
                Ok(entry) => admitted(self.filter, entry),
            };
            proof {
                assert(item == all[n]);
                assert(all.take(n + 1).drop_last() =~= all.take(n));
                assert(verdicts.push(verdict).drop_last() =~= verdicts);
                verdicts = verdicts.push(verdict);
                n = n + 1;
                assert(self.rest() =~= all.skip(n));
                assert(judged_all(self.filter(), all.take(n), verdicts));
            }
            if verdict {
                assert(yields(self.filter(), all, n, verdicts, Some(item), self.rest()));
                return Some(item);
            }
        }
    }
}

/// Looking on in a scan, of which `n` items were looked at, shows the next item behind those shown
/// before.
proof fn lemma_resume<B, E, F: Fn(&SignedEntry<B>) -> bool>(
    filter: Option<F>,
    all: Seq<Result<SignedEntry<B>, E>>,
    n: int,
    verdicts: Seq<bool>,
    k: int,
    w: Seq<bool>,
    item: Option<Result<SignedEntry<B>, E>>,
    after: Seq<Result<SignedEntry<B>, E>>,
)
    requires
        0 <= n <= all.len(),
        judged_all(filter, all.take(n), verdicts),
        yields(filter, all.skip(n), k, w, item, after),
    ensures
        n <= n + k <= all.len(),
        after == all.skip(n + k),
        judged_all(filter, all.take(n + k), verdicts + w),
        match item {
            None => n + k == all.len() && kept(all.take(n + k), verdicts + w) == kept(
                all.take(n),
                verdicts,
            ),
            Some(shown) => k > 0 && kept(all.take(n + k), verdicts + w).len() > 0 && kept(
                all.take(n + k),
                verdicts + w,
            ).last() == shown && kept(all.take(n + k), verdicts + w).drop_last() == kept(
                all.take(n),
                verdicts,
            ),
        },
{
    let rest = all.skip(n);
    let seen = kept(all.take(n), verdicts);
    lemma_kept_append(all.take(n), rest.take(k), verdicts, w);
    lemma_judged_append(filter, all.take(n), rest.take(k), verdicts, w);
    assert(all.take(n) + rest.take(k) =~= all.take(n + k));
    assert(rest.skip(k) =~= all.skip(n + k));
    if item is None {
        assert(seen + kept(rest.take(k), w) =~= seen);
    } else {
        assert((seen + kept(rest.take(k), w)).drop_last() =~= seen);
    }
}

/// Whether `r` is what the first item shown of a scan says, where the scan is looked at no further
/// than that item.
pub open spec fn is_first<B, E, F: Fn(&SignedEntry<B>) -> bool>(
    filter: Option<F>,
    items: Seq<Result<SignedEntry<B>, E>>,
    r: Result<RecordIdentifier, E>,
) -> bool {
    exists|n: int, verdicts: Seq<bool>|
        {
            &&& 0 <= n <= items.len()
            &&& #[trigger] judged_all(filter, items.take(n), verdicts)
            &&& n < items.len() ==> kept(items.take(n), verdicts).len() > 0
            &&& first_key(kept(items.take(n), verdicts)) == (match r {
                Ok(id) => Ok(id@),
                Err(e) => Err(e),
            })
        }
}

/// The key of the first entry shown of a scan, or the default key if there is none.
pub fn first_of_scan<B, E, F: Fn(&SignedEntry<B>) -> bool>(
    filter: &Option<F>,
    items: VecDeque<Result<SignedEntry<B>, E>>,
) -> (r: Result<RecordIdentifier, E>)
    requires
        takes_all(*filter),
    ensures
        is_first(*filter, items@, r),
{
    let ghost all = items@;
    let mut iter = FilteredIter::new(items, filter);
    let first = iter.next();
    proof {
        let (n, verdicts) = choose|n: int, verdicts: Seq<bool>| #[trigger]
            yields(*filter, all, n, verdicts, first, iter.rest());
        assert(judged_all(*filter, all.take(n), verdicts));
    }
    match first {
        None => Ok(RecordIdentifier::default()),
        Some(Err(e)) => Err(e),
        Some(Ok(entry)) => Ok(entry.id),
    }
}

/// Whether `r` is the digest of what is shown of a scan, added to `start`, where the scan is looked
/// at no further than its first error.
pub open spec fn is_digest<B, E, F: Fn(&SignedEntry<B>) -> bool>(
    filter: Option<F>,
    start: Fingerprint,
    items: Seq<Result<SignedEntry<B>, E>>,
    r: Result<Fingerprint, E>,
) -> bool {
    exists|n: int, verdicts: Seq<bool>|
        {
            &&& 0 <= n <= items.len()
            &&& #[trigger] judged_all(filter, items.take(n), verdicts)
            &&& n < items.len() ==> r is Err
            &&& digest(start@, kept(items.take(n), verdicts)) == (match r {
                Ok(fp) => Ok(fp@),
                Err(e) => Err(e),
            })
        }
}

/// The digest of what is shown of a scan, added to `empty`.
pub fn digest_of_scan<B, E, F: Fn(&SignedEntry<B>) -> bool>(
    filter: &Option<F>,
    empty: Fingerprint,
    items: VecDeque<Result<SignedEntry<B>, E>>,
) -> (r: Result<Fingerprint, E>)
    requires
        takes_all(*filter),
    ensures
        is_digest(*filter, empty, items@, r),
{
    let ghost all = items@;
    let mut iter = FilteredIter::new(items, filter);
    let mut fp = empty;
    let ghost mut n: int = 0;
    let ghost mut verdicts: Seq<bool> = Seq::empty();
    assert(all.skip(0) =~= all);
    loop
        invariant
            takes_all(*filter),
            iter.filter() == *filter,
            0 <= n <= all.len(),
            iter.rest() == all.skip(n),
            judged_all(*filter, all.take(n), verdicts),
            digest(empty@, kept(all.take(n), verdicts)) == Ok::<Seq<u8>, E>(fp@),
            all == items@,
        decreases iter.rest().len(),
    {
        let ghost rest = iter.rest();
        let item = iter.next();
        proof {
            let (k, w) = choose|k: int, w: Seq<bool>| #[trigger]
                yields(*filter, rest, k, w, item, iter.rest());
            lemma_resume(*filter, all, n, verdicts, k, w, item, iter.rest());
            verdicts = verdicts + w;
            n = n + k;
        }
        match item {
            None => {
                return Ok(fp);
            },
            Some(Err(e)) => {
                return Err(e);
            },
            Some(Ok(entry)) => {
                fp.combine(&entry.fingerprint);
            },
        }
    }
}

/// Whether `r` is the number of items shown of a scan, where the scan is looked at no further than
/// its first error.
pub open spec fn is_count<B, E, F: Fn(&SignedEntry<B>) -> bool>(
    filter: Option<F>,
    items: Seq<Result<SignedEntry<B>, E>>,
    r: Result<usize, E>,
) -> bool {
    exists|n: int, verdicts: Seq<bool>|
        {
            &&& 0 <= n <= items.len()
            &&& #[trigger] judged_all(filter, items.take(n), verdicts)
            &&& n < items.len() ==> r is Err
            &&& counted(kept(items.take(n), verdicts)) == (match r {
                Ok(count) => Ok(count as nat),
                Err(e) => Err(e),
            })
        }
}

/// The number of items shown of a scan.
pub fn count_of_scan<B, E, F: Fn(&SignedEntry<B>) -> bool>(
    filter: &Option<F>,
    items: VecDeque<Result<SignedEntry<B>, E>>,
) -> (r: Result<usize, E>)
    requires
        takes_all(*filter),
    ensures
        is_count(*filter, items@, r),
{
    let ghost all = items@;
    let len = items.len();
    let mut iter = FilteredIter::new(items, filter);
    let mut count: usize = 0;
    let ghost mut n: int = 0;
    let ghost mut verdicts: Seq<bool> = Seq::empty();
    assert(all.skip(0) =~= all);
    loop
        invariant
            takes_all(*filter),
            iter.filter() == *filter,
            0 <= n <= all.len(),
            iter.rest() == all.skip(n),
            judged_all(*filter, all.take(n), verdicts),
            counted(kept(all.take(n), verdicts)) == Ok::<nat, E>(count as nat),
            count <= n,
            all.len() == len,
            all == items@,
        decreases iter.rest().len(),
    {
        let ghost rest = iter.rest();
        let item = iter.next();
        proof {
            let (k, w) = choose|k: int, w: Seq<bool>| #[trigger]
                yields(*filter, rest, k, w, item, iter.rest());
            lemma_resume(*filter, all, n, verdicts, k, w, item, iter.rest());
            verdicts = verdicts + w;
            n = n + k;
        }
        match item {
            None => {
                return Ok(count);
            },
            Some(Err(e)) => {
                return Err(e);
            },
            Some(Ok(_)) => {
                count = count + 1;
            },
        }
    }
}

} // verus!
