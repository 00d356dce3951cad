//! What a session's view shows, and what it does not.

use std::collections::VecDeque;

use vstd::prelude::*;

use crate::filter::entry::{
    combined, default_id, law_digests_form_a_group, Fingerprint, RecordIdentifier, SignedEntry,
};
use crate::filter::scan::{
    counted, digest, first_key, is_count, is_digest, is_first, judged, judged_all, kept, yields,
    FilteredIter,
};
use crate::filter::store::{is_none_of, narrowed};

verus! {

/// A predicate that the filter computes: it gives no other verdict. No filter admits all.
pub open spec fn decides<B, F: Fn(&SignedEntry<B>) -> bool>(
    filter: Option<F>,
    admits: spec_fn(SignedEntry<B>) -> bool,
) -> bool {
    match filter {
        None => forall|entry: SignedEntry<B>| #[trigger] admits(entry),
        Some(f) => forall|entry: &SignedEntry<B>, verdict: bool| #[trigger]
            f.ensures((entry,), verdict) ==> verdict == admits(*entry),
    }
}

/// The items of a scan that are shown where a predicate decides.
pub open spec fn visible<B, E>(
    items: Seq<Result<SignedEntry<B>, E>>,
    admits: spec_fn(SignedEntry<B>) -> bool,
) -> Seq<Result<SignedEntry<B>, E>> {
    items.filter(|item: Result<SignedEntry<B>, E>| item is Err || admits(item->Ok_0))
}

/// Where a predicate decides, what is shown is what the predicate admits.
pub proof fn law_shown_entries_are_the_admitted<B, E, F: Fn(&SignedEntry<B>) -> bool>(
    filter: Option<F>,
    admits: spec_fn(SignedEntry<B>) -> bool,
    items: Seq<Result<SignedEntry<B>, E>>,
    verdicts: Seq<bool>,
)
    requires
        decides(filter, admits),
        judged_all(filter, items, verdicts),
    ensures
        kept(items, verdicts) == visible(items, admits),
    decreases items.len(),
{
    reveal(Seq::filter);
    if items.len() > 0 {
        let i = items.len() - 1;
        assert(items[i] is Ok ==> judged(filter, items[i]->Ok_0, verdicts[i]));
        assert forall|j: int|
            0 <= j < items.drop_last().len() && items.drop_last()[j] is Ok implies judged(
            filter,
            items.drop_last()[j]->Ok_0,
            #[trigger] verdicts.drop_last()[j],
        ) by {
            assert(verdicts.drop_last()[j] == verdicts[j]);
        }
        law_shown_entries_are_the_admitted(filter, admits, items.drop_last(), verdicts.drop_last());
    }
}

/// Without a filter, everything is shown.
pub proof fn law_no_filter_shows_everything<B, E, F: Fn(&SignedEntry<B>) -> bool>(
    items: Seq<Result<SignedEntry<B>, E>>,
    verdicts: Seq<bool>,
)
    requires
        judged_all::<B, E, F>(None, items, verdicts),
    ensures
        kept(items, verdicts) == items,
    decreases items.len(),
{
    if items.len() > 0 {
        let i = items.len() - 1;
        assert(items[i] is Ok ==> judged::<B, F>(None, items[i]->Ok_0, verdicts[i]));
        assert forall|j: int|
            0 <= j < items.drop_last().len() && items.drop_last()[j] is Ok implies judged::<B, F>(
            None,
            items.drop_last()[j]->Ok_0,
            #[trigger] verdicts.drop_last()[j],
        ) by {
            assert(verdicts.drop_last()[j] == verdicts[j]);
        }
        law_no_filter_shows_everything::<B, E, F>(items.drop_last(), verdicts.drop_last());
        assert(items.drop_last().push(items.last()) =~= items);
    }
}

/// A digest that has met an error stays at it.
proof fn lemma_digest_error<B, E>(
    start: Seq<u8>,
    a: Seq<Result<SignedEntry<B>, E>>,
    b: Seq<Result<SignedEntry<B>, E>>,
)
    requires
        digest(start, a) is Err,
    ensures
        digest(start, a + b) == digest(start, a),
    decreases b.len(),
{
    if b.len() == 0 {
        assert(a + b =~= a);
    } else {
        lemma_digest_error(start, a, b.drop_last());
        assert((a + b).drop_last() =~= a + b.drop_last());
    }
}

/// The first key that a session sees is decided by what is visible to it.
pub proof fn law_first_key_is_that_of_the_view<B, E, F: Fn(&SignedEntry<B>) -> bool>(
    filter: Option<F>,
    admits: spec_fn(SignedEntry<B>) -> bool,
    items: Seq<Result<SignedEntry<B>, E>>,
    r: Result<RecordIdentifier, E>,
)
    requires
        decides(filter, admits),
        is_first(filter, items, r),
    ensures
        first_key(visible(items, admits)) == (match r {
            Ok(id) => Ok(id@),
            Err(e) => Err(e),
        }),
{
    let (n, verdicts) = choose|n: int, verdicts: Seq<bool>|
        {
            &&& 0 <= n <= items.len()
            &&& #[trigger] judged_all(filter, items.take(n), verdicts)
            &&& n < items.len() ==> kept(items.take(n), verdicts).len() > 0
            &&& first_key(kept(items.take(n), verdicts)) == (match r {
                Ok(id) => Ok(id@),
                Err(e) => Err(e),
            })
        };
    law_shown_entries_are_the_admitted(filter, admits, items.take(n), verdicts);
    assert(items.take(n) + items.skip(n) =~= items);
    Seq::filter_distributes_over_add(
        items.take(n),
        items.skip(n),
        |item: Result<SignedEntry<B>, E>| item is Err || admits(item->Ok_0),
    );
    if n == items.len() {
        assert(items.take(n) =~= items);
    }
}

/// The digest that a session sees is that of what is visible to it.
pub proof fn law_fingerprint_is_that_of_the_view<B, E, F: Fn(&SignedEntry<B>) -> bool>(
    filter: Option<F>,
    admits: spec_fn(SignedEntry<B>) -> bool,
    start: Fingerprint,
    items: Seq<Result<SignedEntry<B>, E>>,
    r: Result<Fingerprint, E>,
)
    requires
        decides(filter, admits),
        is_digest(filter, start, items, r),
    ensures
        digest(start@, visible(items, admits)) == (match r {
            Ok(fp) => Ok(fp@),
            Err(e) => Err(e),
        }),
{
    let (n, verdicts) = choose|n: int, verdicts: Seq<bool>|
        {
            &&& 0 <= n <= items.len()
            &&& #[trigger] judged_all(filter, items.take(n), verdicts)
            &&& n < items.len() ==> r is Err
            &&& digest(start@, kept(items.take(n), verdicts)) == (match r {
                Ok(fp) => Ok(fp@),
                Err(e) => Err(e),
            })
        };
    law_shown_entries_are_the_admitted(filter, admits, items.take(n), verdicts);
    assert(items.take(n) + items.skip(n) =~= items);
    Seq::filter_distributes_over_add(
        items.take(n),
        items.skip(n),
        |item: Result<SignedEntry<B>, E>| item is Err || admits(item->Ok_0),
    );
    if n == items.len() {
        assert(items.take(n) =~= items);
    } else {
        lemma_digest_error(
            start@,
            visible(items.take(n), admits),
            visible(items.skip(n), admits),
        );
    }
}

/// Looking at a scan item by item shows what is visible of it, in order and nothing else.
pub proof fn law_scans_show_the_view<B, E, F: Fn(&SignedEntry<B>) -> bool>(
    filter: Option<F>,
    admits: spec_fn(SignedEntry<B>) -> bool,
    rest: Seq<Result<SignedEntry<B>, E>>,
    n: int,
    verdicts: Seq<bool>,
    item: Option<Result<SignedEntry<B>, E>>,
    after: Seq<Result<SignedEntry<B>, E>>,
)
    requires
        decides(filter, admits),
        yields(filter, rest, n, verdicts, item, after),
    ensures
        match item {
            None => visible(rest, admits).len() == 0,
            Some(item) => visible(rest, admits).len() > 0 && visible(rest, admits)[0] == item
                && visible(after, admits) == visible(rest, admits).drop_first(),
        },
{
    law_shown_entries_are_the_admitted(filter, admits, rest.take(n), verdicts);
    assert(rest.take(n) + rest.skip(n) =~= rest);
    Seq::filter_distributes_over_add(
        rest.take(n),
        rest.skip(n),
        |item: Result<SignedEntry<B>, E>| item is Err || admits(item->Ok_0),
    );
    if item is None {
        assert(rest.take(n) =~= rest);
    } else {
        assert(visible(rest, admits).drop_first() =~= visible(after, admits));
    }
}

/// An entry that is not admitted leaves no trace: with it, wherever it is stored, and without it,
/// the same is visible. First keys, digests and ranges derive from what is visible.
pub proof fn law_unadmitted_entries_leave_no_trace<B, E>(
    admits: spec_fn(SignedEntry<B>) -> bool,
    items: Seq<Result<SignedEntry<B>, E>>,
    at: int,
    entry: SignedEntry<B>,
)
    requires
        0 <= at <= items.len(),
        !admits(entry),
    ensures
        visible(items.insert(at, Ok(entry)), admits) == visible(items, admits),
{
    let pred = |item: Result<SignedEntry<B>, E>| item is Err || admits(item->Ok_0);
    let one: Seq<Result<SignedEntry<B>, E>> = seq![Ok(entry)];
    assert(items.insert(at, Ok(entry)) =~= items.take(at) + one + items.skip(at));
    assert(items =~= items.take(at) + items.skip(at));
    Seq::filter_distributes_over_add(items.take(at) + one, items.skip(at), pred);
    Seq::filter_distributes_over_add(items.take(at), one, pred);
    Seq::filter_distributes_over_add(items.take(at), items.skip(at), pred);
    one.lemma_all_neg_filter_empty(pred);
    assert(items.take(at).filter(pred) + one.filter(pred) =~= items.take(at).filter(pred));
}

/// A session to which nothing is admitted sees an empty replica: the default key, and the digest of
/// no entries.
pub proof fn law_nothing_admitted_looks_empty<B, E>(
    admits: spec_fn(SignedEntry<B>) -> bool,
    start: Seq<u8>,
    items: Seq<Result<SignedEntry<B>, E>>,
)
    requires
        forall|i: int| 0 <= i < items.len() ==> (#[trigger] items[i]) is Ok && !admits(
            items[i]->Ok_0,
        ),
    ensures
        first_key(visible(items, admits)) == Ok::<Seq<u8>, E>(default_id()),
        digest(start, visible(items, admits)) == Ok::<Seq<u8>, E>(start),
{
    items.lemma_all_neg_filter_empty(
        |item: Result<SignedEntry<B>, E>| item is Err || admits(item->Ok_0),
    );
}

/// A filter that admits everything shows everything, as no filter does.
pub proof fn law_admitting_all_shows_everything<B, E>(
    admits: spec_fn(SignedEntry<B>) -> bool,
    items: Seq<Result<SignedEntry<B>, E>>,
)
    requires
        forall|entry: SignedEntry<B>| #[trigger] admits(entry),
    ensures
        visible(items, admits) == items,
    decreases items.len(),
{
    reveal(Seq::filter);
    if items.len() > 0 {
        law_admitting_all_shows_everything(admits, items.drop_last());
        assert(items.drop_last().push(items.last()) =~= items);
    }
}

/// Where a store's own digest of a range is that of the entries which it reads there, and it reads
/// them without error, a filter that admits everything gives the store's own digest.
pub proof fn law_admitting_all_gives_the_whole_digest<B, E, F: Fn(&SignedEntry<B>) -> bool>(
    filter: Option<F>,
    admits: spec_fn(SignedEntry<B>) -> bool,
    empty: Fingerprint,
    items: Seq<Result<SignedEntry<B>, E>>,
    own: Fingerprint,
    r: Result<Fingerprint, E>,
)
    requires
        decides(filter, admits),
        forall|entry: SignedEntry<B>| #[trigger] admits(entry),
        digest(empty@, items) == Ok::<Seq<u8>, E>(own@),
        is_digest(filter, empty, items, r),
    ensures
        r == Ok::<Fingerprint, E>(own),
{
    law_fingerprint_is_that_of_the_view(filter, admits, empty, items, r);
    law_admitting_all_shows_everything(admits, items);
    assert(r is Ok);
    assert(r->Ok_0.bytes =~= own.bytes);
}

/// A filter that admits nothing gives the digest of no entries, whatever a range holds, where it is
/// read without error.
pub proof fn law_admitting_none_gives_the_empty_digest<B, E, F: Fn(&SignedEntry<B>) -> bool>(
    filter: Option<F>,
    admits: spec_fn(SignedEntry<B>) -> bool,
    empty: Fingerprint,
    items: Seq<Result<SignedEntry<B>, E>>,
    r: Result<Fingerprint, E>,
)
    requires
        decides(filter, admits),
        forall|entry: SignedEntry<B>| !#[trigger] admits(entry),
        forall|i: int| 0 <= i < items.len() ==> (#[trigger] items[i]) is Ok,
        is_digest(filter, empty, items, r),
    ensures
        r == Ok::<Fingerprint, E>(empty),
{
    law_fingerprint_is_that_of_the_view(filter, admits, empty, items, r);
    law_nothing_admitted_looks_empty(admits, empty@, items);
    assert(r is Ok);
    assert(r->Ok_0.bytes =~= empty.bytes);
}

/// The verdict on an entry is the filter's own, and not its opposite; without a filter every entry
/// is admitted.
pub proof fn law_verdicts_are_the_filters_own<B, F: Fn(&SignedEntry<B>) -> bool>(
    filter: Option<F>,
    admits: spec_fn(SignedEntry<B>) -> bool,
    entry: SignedEntry<B>,
    verdict: bool,
)
    requires
        decides(filter, admits),
        judged(filter, entry, verdict),
    ensures
        verdict == admits(entry),
        filter is None ==> verdict,
{
}

/// What is visible is what is there and admitted, and every error; nothing else is.
pub proof fn law_the_view_holds_the_admitted<B, E>(
    items: Seq<Result<SignedEntry<B>, E>>,
    admits: spec_fn(SignedEntry<B>) -> bool,
    item: Result<SignedEntry<B>, E>,
)
    ensures
        visible(items, admits).contains(item) <==> items.contains(item) && (item matches Ok(
            entry,
        ) ==> admits(entry)),
        visible(items, admits).len() <= items.len(),
    decreases items.len(),
{
    reveal(Seq::filter);
    if items.len() > 0 {
        let before = items.drop_last();
        law_the_view_holds_the_admitted(before, admits, item);
        let seen = visible(before, admits);
        assert(items =~= before.push(items.last()));
        assert(items.contains(item) <==> before.contains(item) || items.last() == item) by {
            if items.contains(item) {
                let i = choose|i: int| 0 <= i < items.len() && items[i] == item;
                if i < before.len() {
                    assert(before[i] == item);
                }
            }
            if before.contains(item) {
                let i = choose|i: int| 0 <= i < before.len() && before[i] == item;
                assert(items[i] == item);
            }
            assert(items[items.len() - 1] == items.last());
        }
        if items.last() is Err || admits(items.last()->Ok_0) {
            let after = seen.push(items.last());
            assert(visible(items, admits) == after);
            assert(after.contains(item) <==> seen.contains(item) || items.last() == item) by {
                if after.contains(item) {
                    let i = choose|i: int| 0 <= i < after.len() && after[i] == item;
                    if i < seen.len() {
                        assert(seen[i] == item);
                    }
                }
                if seen.contains(item) {
                    let i = choose|i: int| 0 <= i < seen.len() && seen[i] == item;
                    assert(after[i] == item);
                }
                assert(after[after.len() - 1] == items.last());
            }
        }
    }
}

/// What is visible of two scans on end is what is visible of the one, then of the other.
pub proof fn law_views_add_up<B, E>(
    a: Seq<Result<SignedEntry<B>, E>>,
    b: Seq<Result<SignedEntry<B>, E>>,
    admits: spec_fn(SignedEntry<B>) -> bool,
)
    ensures
        visible(a + b, admits) == visible(a, admits) + visible(b, admits),
{
    Seq::filter_distributes_over_add(
        a,
        b,
        |item: Result<SignedEntry<B>, E>| item is Err || admits(item->Ok_0),
    );
}

/// What is visible of one item.
proof fn lemma_view_of_one<B, E>(
    item: Result<SignedEntry<B>, E>,
    admits: spec_fn(SignedEntry<B>) -> bool,
)
    ensures
        visible(seq![item], admits) == (if item is Err || admits(item->Ok_0) {
            seq![item]
        } else {
            Seq::empty()
        }),
{
    reveal_with_fuel(Seq::filter, 2);
    let one = seq![item];
    assert(one.drop_last() =~= Seq::empty());
    assert(one.last() == item);
    assert(Seq::<Result<SignedEntry<B>, E>>::empty().push(item) =~= one);
}

/// A scan at one of its items: what comes before, the item, and what comes behind.
proof fn lemma_view_at<B, E>(
    items: Seq<Result<SignedEntry<B>, E>>,
    at: int,
    admits: spec_fn(SignedEntry<B>) -> bool,
)
    requires
        0 <= at < items.len(),
        items[at] is Err || admits(items[at]->Ok_0),
    ensures
        visible(items, admits) == visible(items.take(at), admits) + seq![items[at]] + visible(
            items.skip(at + 1),
            admits,
        ),
{
    assert(items =~= items.take(at) + seq![items[at]] + items.skip(at + 1));
    law_views_add_up(items.take(at) + seq![items[at]], items.skip(at + 1), admits);
    law_views_add_up(items.take(at), seq![items[at]], admits);
    lemma_view_of_one(items[at], admits);
}

/// The first key that a session sees is that of the first entry that is admitted: those before it
/// do not show. An error before any admitted entry is what is answered; and where nothing is
/// admitted, the key is the one of an empty replica.
pub proof fn law_the_first_key_is_of_the_first_admitted<B, E, F: Fn(&SignedEntry<B>) -> bool>(
    filter: Option<F>,
    admits: spec_fn(SignedEntry<B>) -> bool,
    items: Seq<Result<SignedEntry<B>, E>>,
    at: int,
    r: Result<RecordIdentifier, E>,
)
    requires
        decides(filter, admits),
        is_first(filter, items, r),
        0 <= at <= items.len(),
        forall|i: int| 0 <= i < at ==> (#[trigger] items[i]) is Ok && !admits(items[i]->Ok_0),
        at < items.len() ==> items[at] is Err || admits(items[at]->Ok_0),
    ensures
        if at == items.len() {
            r matches Ok(id) && id@ == Seq::new(64, |i: int| 0u8)
        } else {
            match items[at] {
                Ok(entry) => r matches Ok(id) && id@ == entry.id@,
                Err(e) => r matches Err(f) && f == e,
            }
        },
{
    law_first_key_is_that_of_the_view(filter, admits, items, r);
    let pred = |item: Result<SignedEntry<B>, E>| item is Err || admits(item->Ok_0);
    items.take(at).lemma_all_neg_filter_empty(pred);
    if at == items.len() {
        assert(items.take(at) =~= items);
        assert(default_id() =~= Seq::new(64, |i: int| 0u8));
    } else {
        lemma_view_at(items, at, admits);
        assert(visible(items, admits)[0] == items[at]);
    }
}

/// A digest of entries alone has no error, and has the length of a digest.
proof fn lemma_digest_of_entries<B, E>(start: Seq<u8>, items: Seq<Result<SignedEntry<B>, E>>)
    requires
        start.len() == 32,
        forall|i: int| 0 <= i < items.len() ==> (#[trigger] items[i]) is Ok,
    ensures
        digest(start, items) is Ok,
        digest(start, items)->Ok_0.len() == 32,
    decreases items.len(),
{
    if items.len() > 0 {
        lemma_digest_of_entries(start, items.drop_last());
    }
}

/// What is visible of entries alone are entries.
proof fn lemma_view_of_entries<B, E>(
    items: Seq<Result<SignedEntry<B>, E>>,
    admits: spec_fn(SignedEntry<B>) -> bool,
)
    requires
        forall|i: int| 0 <= i < items.len() ==> (#[trigger] items[i]) is Ok,
    ensures
        forall|i: int|
            0 <= i < visible(items, admits).len() ==> (#[trigger] visible(items, admits)[i]) is Ok,
{
    assert forall|i: int| 0 <= i < visible(items, admits).len() implies (#[trigger] visible(
        items,
        admits,
    )[i]) is Ok by {
        let item = visible(items, admits)[i];
        law_the_view_holds_the_admitted(items, admits, item);
        assert(visible(items, admits).contains(item));
        let j = choose|j: int| 0 <= j < items.len() && items[j] == item;
        assert(items[j] is Ok);
    }
}

/// The first error of a range is what is answered for its digest, whatever the filter.
pub proof fn law_digests_answer_the_first_error<B, E, F: Fn(&SignedEntry<B>) -> bool>(
    filter: Option<F>,
    admits: spec_fn(SignedEntry<B>) -> bool,
    empty: Fingerprint,
    items: Seq<Result<SignedEntry<B>, E>>,
    at: int,
    r: Result<Fingerprint, E>,
)
    requires
        decides(filter, admits),
        is_digest(filter, empty, items, r),
        0 <= at < items.len(),
        forall|i: int| 0 <= i < at ==> (#[trigger] items[i]) is Ok,
        items[at] is Err,
    ensures
        r matches Err(e) && e == items[at]->Err_0,
{
    law_fingerprint_is_that_of_the_view(filter, admits, empty, items, r);
    lemma_view_at(items, at, admits);
    lemma_view_of_entries(items.take(at), admits);
    let seen = visible(items.take(at), admits);
    lemma_digest_of_entries(empty@, seen);
    let failed = seen + seq![items[at]];
    assert(failed.drop_last() =~= seen);
    lemma_digest_error(empty@, failed, visible(items.skip(at + 1), admits));
}

/// The digest of one entry, added to that of none, is the entry's own where the latter is all
/// zeros; in general it is the two combined.
pub proof fn law_the_digest_of_one_entry_is_its_own<B, E>(start: Seq<u8>, entry: SignedEntry<B>)
    requires
        start.len() == 32,
    ensures
        digest(start, Seq::<Result<SignedEntry<B>, E>>::empty()) == Ok::<Seq<u8>, E>(start),
        digest(start, seq![Ok::<SignedEntry<B>, E>(entry)]) == Ok::<Seq<u8>, E>(
            combined(start, entry.fingerprint@),
        ),
        digest(Seq::new(32, |i: int| 0u8), seq![Ok::<SignedEntry<B>, E>(entry)]) == Ok::<
            Seq<u8>,
            E,
        >(entry.fingerprint@),
{
    let one = seq![Ok::<SignedEntry<B>, E>(entry)];
    assert(one.drop_last() =~= Seq::empty());
    reveal_with_fuel(digest, 2);
    law_digests_form_a_group(entry.fingerprint@, start, start);
}

/// The digest of two scans on end is that of the second, added to that of the first.
pub proof fn law_digests_add_up<B, E>(
    start: Seq<u8>,
    a: Seq<Result<SignedEntry<B>, E>>,
    b: Seq<Result<SignedEntry<B>, E>>,
)
    ensures
        match digest(start, a) {
            Ok(first) => digest(start, a + b) == digest(first, b),
            Err(e) => digest(start, a + b) == Err::<Seq<u8>, E>(e),
        },
    decreases b.len(),
{
    if digest(start, a) is Err {
        lemma_digest_error(start, a, b);
    } else if b.len() == 0 {
        assert(a + b =~= a);
    } else {
        law_digests_add_up(start, a, b.drop_last());
        assert((a + b).drop_last() =~= a + b.drop_last());
    }
}

/// An entry counts toward a digest the same wherever in the scan it stands.
proof fn lemma_digest_with<B, E>(
    start: Seq<u8>,
    items: Seq<Result<SignedEntry<B>, E>>,
    at: int,
)
    requires
        start.len() == 32,
        0 <= at < items.len(),
        forall|i: int| 0 <= i < items.len() ==> (#[trigger] items[i]) is Ok,
    ensures
        digest(start, items.remove(at)) is Ok,
        digest(start, items) == Ok::<Seq<u8>, E>(
            combined(digest(start, items.remove(at))->Ok_0, items[at]->Ok_0.fingerprint@),
        ),
    decreases items.len(),
{
    let rest = items.remove(at);
    assert forall|i: int| 0 <= i < rest.len() implies (#[trigger] rest[i]) is Ok by {
        assert(rest[i] == items[if i < at {
            i
        } else {
            i + 1
        }]);
    }
    lemma_digest_of_entries(start, rest);
    let before = items.drop_last();
    if at == items.len() - 1 {
        assert(rest =~= before);
    } else {
        lemma_digest_with(start, before, at);
        assert(before.remove(at) =~= rest.drop_last());
        assert(rest.last() == items.last());
        let d = digest(start, rest.drop_last())->Ok_0;
        let one = items[at]->Ok_0.fingerprint@;
        let last = items.last()->Ok_0.fingerprint@;
        lemma_digest_of_entries(start, rest.drop_last());
        law_digests_form_a_group(d, one, last);
        law_digests_form_a_group(d, last, one);
        law_digests_form_a_group(one, last, d);
    }
}

/// A digest does not depend on the order in which the entries are read, only on which there are and
/// how often.
pub proof fn law_digests_ignore_order<B, E>(
    start: Seq<u8>,
    a: Seq<Result<SignedEntry<B>, E>>,
    b: Seq<Result<SignedEntry<B>, E>>,
)
    requires
        start.len() == 32,
        forall|i: int| 0 <= i < a.len() ==> (#[trigger] a[i]) is Ok,
        a.to_multiset() == b.to_multiset(),
    ensures
        digest(start, a) == digest(start, b),
    decreases a.len(),
{
    a.to_multiset_ensures();
    b.to_multiset_ensures();
    if a.len() == 0 {
        assert(a =~= b);
    } else {
        let last = a.len() - 1;
        assert(a.contains(a[last]));
        assert(b.to_multiset().count(a[last]) > 0);
        let j = choose|j: int| 0 <= j < b.len() && b[j] == a[last];
        assert forall|i: int| 0 <= i < b.len() implies (#[trigger] b[i]) is Ok by {
            assert(b.contains(b[i]));
            assert(a.to_multiset().count(b[i]) > 0);
            let k = choose|k: int| 0 <= k < a.len() && a[k] == b[i];
            assert(a[k] is Ok);
        }
        assert(a.remove(last) =~= a.drop_last());
        assert(a.remove(last).to_multiset() =~= b.remove(j).to_multiset());
        law_digests_ignore_order(start, a.drop_last(), b.remove(j));
        lemma_digest_with(start, b, j);
        lemma_digest_with(start, a, last);
    }
}

/// A count that has met an error stays at it.
proof fn lemma_count_error<B, E>(
    a: Seq<Result<SignedEntry<B>, E>>,
    b: Seq<Result<SignedEntry<B>, E>>,
)
    requires
        counted(a) is Err,
    ensures
        counted(a + b) == counted(a),
    decreases b.len(),
{
    if b.len() == 0 {
        assert(a + b =~= a);
    } else {
        lemma_count_error(a, b.drop_last());
        assert((a + b).drop_last() =~= a + b.drop_last());
    }
}

/// Entries alone are as many as they are.
proof fn lemma_count_of_entries<B, E>(items: Seq<Result<SignedEntry<B>, E>>)
    requires
        forall|i: int| 0 <= i < items.len() ==> (#[trigger] items[i]) is Ok,
    ensures
        counted(items) == Ok::<nat, E>(items.len()),
    decreases items.len(),
{
    if items.len() > 0 {
        lemma_count_of_entries(items.drop_last());
    }
}

/// The count that a session sees is that of what is visible to it.
proof fn lemma_count_is_that_of_the_view<B, E, F: Fn(&SignedEntry<B>) -> bool>(
    filter: Option<F>,
    admits: spec_fn(SignedEntry<B>) -> bool,
    items: Seq<Result<SignedEntry<B>, E>>,
    r: Result<usize, E>,
)
    requires
        decides(filter, admits),
        is_count(filter, items, r),
    ensures
        counted(visible(items, admits)) == (match r {
            Ok(count) => Ok(count as nat),
            Err(e) => Err(e),
        }),
{
    let (n, verdicts) = choose|n: int, verdicts: Seq<bool>|
        {
            &&& 0 <= n <= items.len()
            &&& #[trigger] judged_all(filter, items.take(n), verdicts)
            &&& n < items.len() ==> r is Err
            &&& counted(kept(items.take(n), verdicts)) == (match r {
                Ok(count) => Ok(count as nat),
                Err(e) => Err(e),
            })
        };
    law_shown_entries_are_the_admitted(filter, admits, items.take(n), verdicts);
    assert(items.take(n) + items.skip(n) =~= items);
    law_views_add_up(items.take(n), items.skip(n), admits);
    if n == items.len() {
        assert(items.take(n) =~= items);
    } else {
        lemma_count_error(visible(items.take(n), admits), visible(items.skip(n), admits));
    }
}

/// The count that a session sees is how many entries are admitted, and it sees nothing if and only
/// if none is; the first error of a scan is answered instead.
pub proof fn law_counts_are_of_the_admitted<B, E, F: Fn(&SignedEntry<B>) -> bool>(
    filter: Option<F>,
    admits: spec_fn(SignedEntry<B>) -> bool,
    items: Seq<Result<SignedEntry<B>, E>>,
    at: int,
    count: Result<usize, E>,
    empty: Result<bool, E>,
)
    requires
        decides(filter, admits),
        is_count(filter, items, count),
        is_none_of(count, empty),
        0 <= at <= items.len(),
        forall|i: int| 0 <= i < at ==> (#[trigger] items[i]) is Ok,
        at < items.len() ==> items[at] is Err,
    ensures
        if at == items.len() {
            &&& count matches Ok(n) && n == visible(items, admits).len()
            &&& empty matches Ok(b) && b == (forall|i: int|
                0 <= i < items.len() ==> !admits((#[trigger] items[i])->Ok_0))
        } else {
            &&& count matches Err(e) && e == items[at]->Err_0
            &&& empty matches Err(e) && e == items[at]->Err_0
        },
{
    lemma_count_is_that_of_the_view(filter, admits, items, count);
    let view = visible(items, admits);
    if at == items.len() {
        lemma_view_of_entries(items, admits);
        lemma_count_of_entries(view);
        if view.len() == 0 {
            assert forall|i: int| 0 <= i < items.len() implies !admits(
                (#[trigger] items[i])->Ok_0,
            ) by {
                law_the_view_holds_the_admitted(items, admits, items[i]);
                assert(items.contains(items[i]));
                assert(!view.contains(items[i]));
            }
        } else {
            let item = view[0];
            law_the_view_holds_the_admitted(items, admits, item);
            assert(view.contains(item));
            let j = choose|j: int| 0 <= j < items.len() && items[j] == item;
            assert(admits(items[j]->Ok_0));
        }
    } else {
        lemma_view_at(items, at, admits);
        lemma_view_of_entries(items.take(at), admits);
        let seen = visible(items.take(at), admits);
        lemma_count_of_entries(seen);
        let failed = seen + seq![items[at]];
        assert(failed.drop_last() =~= seen);
        lemma_count_error(failed, visible(items.skip(at + 1), admits));
    }
}

/// A range that a session reads shows, item by item, what is visible of what the store read there;
/// a store that fails fails the read with its own error.
pub proof fn law_narrowed_ranges_show_the_view<B, E, F: Fn(&SignedEntry<B>) -> bool>(
    filter: Option<F>,
    admits: spec_fn(SignedEntry<B>) -> bool,
    scan: Result<VecDeque<Result<SignedEntry<B>, E>>, E>,
    r: Result<FilteredIter<'_, B, E, F>, E>,
    n: int,
    verdicts: Seq<bool>,
    item: Option<Result<SignedEntry<B>, E>>,
    after: Seq<Result<SignedEntry<B>, E>>,
)
    requires
        decides(filter, admits),
        narrowed(filter, scan, r),
        r matches Ok(iter) ==> yields(iter.filter(), iter.rest(), n, verdicts, item, after),
    ensures
        match (scan, r) {
            (Err(e), Err(f)) => f == e,
            (Ok(items), Ok(_)) => match item {
                None => visible(items@, admits).len() == 0,
                Some(shown) => visible(items@, admits) == seq![shown] + visible(after, admits),
            },
            _ => false,
        },
{
    if let (Ok(items), Ok(iter)) = (scan, r) {
        law_scans_show_the_view(filter, admits, items@, n, verdicts, item, after);
        if let Some(shown) = item {
            assert(visible(items@, admits) =~= seq![shown] + visible(after, admits));
        }
    }
}

} // verus!
