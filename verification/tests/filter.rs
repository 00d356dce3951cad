use std::cell::RefCell;
use std::collections::VecDeque;
use std::sync::Arc;

use docs_sync::filter::entry::{
    Fingerprint, Range, RecordIdentifier, SignedEntry, ID_HEAD_BYTES,
};
use docs_sync::filter::scan::{
    admitted, count_of_scan, digest_of_scan, first_of_scan, FilteredIter,
};
use docs_sync::filter::store::{PublicKeyStore, SessionStore, Store};
use docs_sync::filter::{SessionAccess, SessionRole};

#[test]
fn session_access_debug_is_opaque() {
    let access = SessionAccess::Filtered(Arc::new(|_: &SignedEntry<()>| true));
    assert_eq!(access.debug(), "Filtered(..)");
}

#[test]
fn session_access_shows_its_kind() {
    assert_eq!(SessionAccess::<u8>::Full.debug(), "Full");
    assert_eq!(SessionAccess::<u8>::Deny.debug(), "Deny");
    assert_ne!(SessionRole::Accept, SessionRole::Dial);
}

type Item = Result<SignedEntry<bool>, &'static str>;

/// An entry under a one-byte key; its body says whether the filter admits it.
fn entry(key: u8, shown: bool) -> SignedEntry<bool> {
    SignedEntry {
        id: RecordIdentifier { bytes: vec![key] },
        fingerprint: Fingerprint { bytes: [key; 32] },
        body: shown,
    }
}

fn shown(entry: &SignedEntry<bool>) -> bool {
    entry.body
}

const EMPTY: Fingerprint = Fingerprint { bytes: [0xa0; 32] };

/// A store of listed items, which counts its scans.
struct Listed {
    items: Vec<Result<(u8, bool), &'static str>>,
    broken: bool,
    scans: usize,
}

impl Listed {
    fn new(items: Vec<Result<(u8, bool), &'static str>>) -> Self {
        Listed { items, broken: false, scans: 0 }
    }

    fn scan(&mut self) -> Result<VecDeque<Item>, &'static str> {
        self.scans += 1;
        if self.broken {
            return Err("broken");
        }
        Ok(self.items.iter().map(|i| i.map(|(key, shown)| entry(key, shown))).collect())
    }
}

impl Store for Listed {
    type Body = bool;
    type Record = u8;
    type Error = &'static str;

    fn get_first(&mut self) -> Result<RecordIdentifier, &'static str> {
        Ok(RecordIdentifier { bytes: vec![1] })
    }

    fn get_fingerprint(&mut self, range: &Range) -> Result<Fingerprint, &'static str> {
        Ok(Fingerprint { bytes: [range.x.bytes[0] + 0x10 * self.scans as u8; 32] })
    }

    fn get_range(&mut self, _range: Range) -> Result<VecDeque<Item>, &'static str> {
        self.scan()
    }

    fn get(&mut self, key: &RecordIdentifier) -> Result<Option<SignedEntry<bool>>, &'static str> {
        for item in &self.items {
            let (k, shown) = (*item)?;
            if key.bytes == vec![k] {
                return Ok(Some(entry(k, shown)));
            }
        }
        Ok(None)
    }

    fn prefixed_by(&mut self, _prefix: &RecordIdentifier) -> Result<VecDeque<Item>, &'static str> {
        self.scan()
    }

    fn all(&mut self) -> Result<VecDeque<Item>, &'static str> {
        self.scan()
    }

    fn prefixes_of(&mut self, _key: &RecordIdentifier) -> Result<VecDeque<Item>, &'static str> {
        self.scan()
    }

    fn entry_put(&mut self, entry: SignedEntry<bool>) -> Result<(), &'static str> {
        self.items.push(Ok((entry.id.bytes[0], entry.body)));
        Ok(())
    }

    fn entry_remove(
        &mut self,
        key: &RecordIdentifier,
    ) -> Result<Option<SignedEntry<bool>>, &'static str> {
        let at = self.items.iter().position(|i| matches!(i, Ok((k, _)) if *k == key.bytes[0]));
        match at {
            None => Ok(None),
            Some(at) => self.items.remove(at).map(|(k, shown)| Some(entry(k, shown))),
        }
    }

    fn remove_prefix_filtered<P: Fn(&u8) -> bool>(
        &mut self,
        prefix: &RecordIdentifier,
        predicate: P,
    ) -> Result<usize, &'static str> {
        if prefix.bytes.is_empty() {
            return Err("no prefix");
        }
        let before = self.items.len();
        self.items.retain(|i| !matches!(i, Ok((k, _)) if predicate(k)));
        Ok(before - self.items.len())
    }
}

impl PublicKeyStore for Listed {
    type PublicKey = u8;
    type KeyError = &'static str;

    fn public_key(&self, id: &[u8; 32]) -> Result<u8, &'static str> {
        if id[0] == 0 {
            Err("no key")
        } else {
            Ok(id[0])
        }
    }
}

type Filtered = SessionStore<Listed, fn(&SignedEntry<bool>) -> bool>;

fn filtered(items: Vec<Result<(u8, bool), &'static str>>) -> Filtered {
    SessionStore::new(Listed::new(items), Some(shown))
}

fn unfiltered(items: Vec<Result<(u8, bool), &'static str>>) -> Filtered {
    SessionStore::new(Listed::new(items), None)
}

fn key(bytes: &[u8]) -> RecordIdentifier {
    RecordIdentifier { bytes: bytes.to_vec() }
}

fn range() -> Range {
    Range::new(key(&[2]), key(&[3]))
}

fn items(
    mut iter: FilteredIter<'_, bool, &'static str, fn(&SignedEntry<bool>) -> bool>,
) -> Vec<Result<u8, &'static str>> {
    let mut out = vec![];
    while let Some(item) = iter.next() {
        out.push(item.map(|e| e.id.bytes[0]));
    }
    out
}

#[test]
fn the_first_key_is_that_of_the_first_admitted_entry() {
    let mut store = filtered(vec![Ok((1, false)), Ok((2, true)), Err("late"), Ok((3, true))]);
    assert_eq!(store.get_first().unwrap().bytes, vec![2]);
    // Nothing admitted looks like an empty replica.
    let mut none = filtered(vec![Ok((1, false)), Ok((2, false))]);
    assert_eq!(none.get_first().unwrap().bytes, vec![0; ID_HEAD_BYTES]);
    assert_eq!(filtered(vec![]).get_first().unwrap().bytes, vec![0; 64]);
    // An error before the first admitted entry passes through.
    let mut early = filtered(vec![Ok((1, false)), Err("early"), Ok((2, true))]);
    assert_eq!(early.get_first().unwrap_err(), "early");
    // Without a filter, the store answers itself.
    assert_eq!(unfiltered(vec![]).get_first().unwrap().bytes, vec![1]);
}

#[test]
fn the_fingerprint_is_that_of_the_admitted_entries() {
    let mut store = filtered(vec![Ok((0x01, true)), Ok((0x02, false)), Ok((0x04, true))]);
    assert_eq!(store.get_fingerprint(range(), EMPTY).unwrap().bytes, [0xa5; 32]);
    let mut other = filtered(vec![Ok((0x77, false)), Ok((0x01, true)), Ok((0x04, true))]);
    assert_eq!(other.get_fingerprint(range(), EMPTY).unwrap().bytes, [0xa5; 32]);
    let mut none = filtered(vec![Ok((1, false))]);
    assert_eq!(none.get_fingerprint(range(), EMPTY).unwrap().bytes, EMPTY.bytes);
    let mut fails = filtered(vec![Ok((1, true)), Err("row")]);
    assert_eq!(fails.get_fingerprint(range(), EMPTY).unwrap_err(), "row");
    // Without a filter, the store answers itself, as its earlier operations left it.
    let mut whole = unfiltered(vec![]);
    assert_eq!(whole.get_fingerprint(range(), EMPTY).unwrap().bytes, [0x02; 32]);
    assert_eq!(whole.len(), Ok(0));
    assert_eq!(whole.get_fingerprint(range(), EMPTY).unwrap().bytes, [0x12; 32]);
}

#[test]
fn scans_show_admitted_entries_and_every_error() {
    let content = || vec![Ok((1, true)), Err("row"), Ok((2, false)), Ok((3, true))];
    let mut store = filtered(content());
    let expected = vec![Ok(1), Err("row"), Ok(3)];
    assert_eq!(items(store.get_range(range()).unwrap_or_else(|_| panic!())), expected);
    assert_eq!(items(store.prefixed_by(&key(&[7])).unwrap_or_else(|_| panic!())), expected);
    assert_eq!(items(store.all().unwrap_or_else(|_| panic!())), expected);
    let mut whole = unfiltered(content());
    assert_eq!(
        items(whole.all().unwrap_or_else(|_| panic!())),
        vec![Ok(1), Err("row"), Ok(2), Ok(3)]
    );
}

#[test]
fn counts_are_those_of_the_admitted_entries() {
    let mut store = filtered(vec![Ok((1, true)), Ok((2, false)), Ok((3, true))]);
    assert_eq!(store.len(), Ok(2));
    assert_eq!(store.is_empty(), Ok(false));
    let mut none = filtered(vec![Ok((2, false))]);
    assert_eq!((none.len(), none.is_empty()), (Ok(0), Ok(true)));
    let mut fails = filtered(vec![Ok((1, true)), Err("row")]);
    assert_eq!((fails.len(), fails.is_empty()), (Err("row"), Err("row")));
}

#[test]
fn single_entries_are_read_if_admitted() {
    let mut store = filtered(vec![Ok((1, true)), Ok((2, false))]);
    assert_eq!(store.get(&key(&[1])).unwrap().unwrap().id.bytes, vec![1]);
    assert!(store.get(&key(&[2])).unwrap().is_none());
    assert!(store.get(&key(&[3])).unwrap().is_none());
    assert_eq!(filtered(vec![Err("row")]).get(&key(&[1])).unwrap_err(), "row");
    assert!(unfiltered(vec![Ok((2, false))]).get(&key(&[2])).unwrap().is_some());
}

#[test]
fn a_store_that_fails_fails_the_read() {
    let mut listed = Listed::new(vec![Ok((1, true))]);
    listed.broken = true;
    let mut store: Filtered = SessionStore::new(listed, Some(shown));
    assert_eq!(store.get_first().unwrap_err(), "broken");
    assert_eq!(store.get_fingerprint(range(), EMPTY).unwrap_err(), "broken");
    assert_eq!(store.len(), Err("broken"));
    assert!(matches!(store.get_range(range()), Err("broken")));
    assert!(matches!(store.all(), Err("broken")));
    assert!(matches!(store.prefixed_by(&key(&[1])), Err("broken")));
}

#[test]
fn writes_pass_through_unfiltered() {
    let mut store = filtered(vec![Ok((1, false))]);
    store.entry_put(entry(9, false)).unwrap();
    store.entry_put(entry(3, true)).unwrap();
    // The store holds what was written; the session sees what is admitted of it.
    assert_eq!(store.prefixes_of(&key(&[5])).unwrap().len(), 3);
    assert_eq!(store.len(), Ok(1));
    assert!(store.get(&key(&[9])).unwrap().is_none());
    assert!(store.get(&key(&[3])).unwrap().is_some());
    // What is not admitted can be removed all the same.
    assert_eq!(store.entry_remove(&key(&[9])).unwrap().unwrap().id.bytes, vec![9]);
    assert!(store.entry_remove(&key(&[9])).unwrap().is_none());
    assert_eq!(store.remove_prefix_filtered(&key(&[5]), |n| *n < 4), Ok(2));
    assert_eq!(store.remove_prefix_filtered(&key(&[]), |_| true), Err("no prefix"));
    assert_eq!(store.prefixes_of(&key(&[5])).unwrap().len(), 0);
    assert_eq!(store.public_key(&[3; 32]), Ok(3));
    assert_eq!(store.public_key(&[0; 32]), Err("no key"));
}

#[test]
fn fingerprints_of_all_and_of_nothing() {
    let content = || vec![Ok((0x01, true)), Ok((0x02, false)), Ok((0x04, true))];
    let mut all: Filtered = SessionStore::new(Listed::new(content()), Some(|_| true));
    let whole = digest_of_scan(
        &None::<fn(&SignedEntry<bool>) -> bool>,
        EMPTY,
        Listed::new(content()).scan().unwrap(),
    );
    assert_eq!(whole.unwrap().bytes, [0xa7; 32]);
    assert_eq!(all.get_fingerprint(range(), EMPTY).unwrap().bytes, [0xa7; 32]);
    let mut none: Filtered = SessionStore::new(Listed::new(content()), Some(|_| false));
    assert_eq!(none.get_fingerprint(range(), EMPTY).unwrap().bytes, EMPTY.bytes);
}

#[test]
fn no_filter_admits_all() {
    assert!(admitted(&None::<fn(&SignedEntry<bool>) -> bool>, &entry(1, false)));
    assert!(!admitted(&Some(shown), &entry(1, false)));
    assert!(admitted(&Some(shown), &entry(1, true)));
}

#[test]
fn scans_are_read_no_further_than_needed() {
    let asked = RefCell::new(vec![]);
    let filter = Some(|e: &SignedEntry<bool>| {
        asked.borrow_mut().push(e.id.bytes[0]);
        e.body
    });
    let scan = |items: Vec<Item>| VecDeque::from(items);
    let first = first_of_scan(
        &filter,
        scan(vec![Ok(entry(1, false)), Ok(entry(2, true)), Ok(entry(3, true))]),
    );
    assert_eq!(first.unwrap().bytes, vec![2]);
    assert_eq!(*asked.borrow(), vec![1, 2]);
    asked.borrow_mut().clear();
    let digest = digest_of_scan(
        &filter,
        EMPTY,
        scan(vec![Ok(entry(1, true)), Err("row"), Ok(entry(3, true))]),
    );
    assert_eq!(digest.unwrap_err(), "row");
    assert_eq!(*asked.borrow(), vec![1]);
    asked.borrow_mut().clear();
    let count = count_of_scan(&filter, scan(vec![Err("row"), Ok(entry(3, true))]));
    assert_eq!(count, Err("row"));
    assert!(asked.borrow().is_empty());
}

#[test]
fn fingerprints_combine_bit_by_bit() {
    let mut fp = Fingerprint { bytes: [0b1100; 32] };
    fp.combine(&Fingerprint { bytes: [0b1010; 32] });
    assert_eq!(fp.bytes, [0b0110; 32]);
    fp.combine(&Fingerprint { bytes: [0b1010; 32] });
    assert_eq!(fp.bytes, [0b1100; 32]);
}

#[test]
fn the_full_range_starts_and_ends_at_the_default_key() {
    let full = Range::full();
    assert_eq!(full.x.bytes, vec![0; 64]);
    assert_eq!(full.y.bytes, RecordIdentifier::default().bytes);
    let mut store = filtered(vec![]);
    store.get_first().unwrap();
}
