//! Entries, as reconciliation reads them.

use vstd::prelude::*;

verus! {

/// How many bytes an identifier has at least: those of its replica and of its author.
pub const ID_HEAD_BYTES: usize = 64;

/// Identifies an entry: its replica and author, then its key.
#[derive(Debug)]
pub struct RecordIdentifier {
    /// The bytes of the identifier.
    pub bytes: Vec<u8>,
}

impl View for RecordIdentifier {
    type V = Seq<u8>;

    open spec fn view(&self) -> Seq<u8> {
        self.bytes@
    }
}

/// The bytes of the identifier that comes before all others.
pub open spec fn default_id() -> Seq<u8> {
    Seq::new(ID_HEAD_BYTES as nat, |i: int| 0u8)
}

impl Default for RecordIdentifier {
    fn default() -> (id: RecordIdentifier)
        ensures
            id@ == default_id(),
    {
        let mut bytes: Vec<u8> = Vec::new();
        while bytes.len() < ID_HEAD_BYTES
            invariant
                bytes@.len() <= ID_HEAD_BYTES,
                forall|i: int| 0 <= i < bytes@.len() ==> bytes@[i] == 0,
            decreases ID_HEAD_BYTES - bytes@.len(),
        {
            bytes.push(0);
        }
        assert(bytes@ =~= default_id());
        RecordIdentifier { bytes }
    }
}

/// The identifiers from `x` on and before `y`, around the end where `y` comes before `x`; all of
/// them where the two are equal.
#[derive(Debug)]
pub struct Range {
    /// Where the range starts.
    pub x: RecordIdentifier,
    /// Where it ends.
    pub y: RecordIdentifier,
}

impl Range {
    /// The range from `x` to `y`.
    pub fn new(x: RecordIdentifier, y: RecordIdentifier) -> (r: Range)
        ensures
            r == (Range { x, y }),
    {
        Range { x, y }
    }

    /// Whether the range holds every identifier, both ends being the default one.
    pub open spec fn is_full(self) -> bool {
        self.x@ == default_id() && self.y@ == default_id()
    }

    /// The range of all identifiers.
    pub fn full() -> (r: Range)
        ensures
            r.is_full(),
    {
        Range::new(RecordIdentifier::default(), RecordIdentifier::default())
    }
}

/// A digest of a set of entries.
#[derive(Debug, Clone, Copy)]
pub struct Fingerprint {
    /// The digest.
    pub bytes: [u8; 32],
}

impl View for Fingerprint {
    type V = Seq<u8>;

    open spec fn view(&self) -> Seq<u8> {
        self.bytes@
    }
}

/// The digest of two disjoint sets together: bit by bit, one or the other.
pub open spec fn combined(a: Seq<u8>, b: Seq<u8>) -> Seq<u8> {
    Seq::new(32, |i: int| a[i] ^ b[i])
}

impl Fingerprint {
    /// Adds a disjoint set.
    pub fn combine(&mut self, other: &Fingerprint)
        ensures
            final(self)@ == combined(old(self)@, other@),
    {
        let ghost before = *self;
        let mut i: usize = 0;
        while i < 32
            invariant
                i <= 32,
                forall|j: int| 0 <= j < i ==> self.bytes[j] == before.bytes[j] ^ other.bytes[j],
                forall|j: int| i <= j < 32 ==> self.bytes[j] == before.bytes[j],
            decreases 32 - i,
        {
            self.bytes[i] = self.bytes[i] ^ other.bytes[i];
            i = i + 1;
        }
        assert(self@ =~= combined(before@, other@));
    }
}

/// A signed entry, as far as reconciliation reads it.
#[derive(Debug)]
pub struct SignedEntry<B> {
    /// What identifies the entry.
    pub id: RecordIdentifier,
    /// The digest of the entry alone.
    pub fingerprint: Fingerprint,
    /// Everything else.
    pub body: B,
}

/// A bit of a digest.
pub open spec fn bit(digest: Seq<u8>, at: int, k: u8) -> bool {
    (digest[at] >> k) & 1u8 == 1u8
}

/// Combining goes position by position and bit by bit: a bit of the result is set if and only if it
/// is set in exactly one of the two.
pub proof fn law_combining_is_exclusive_or(a: Seq<u8>, b: Seq<u8>, at: int, k: u8)
    requires
        a.len() == 32,
        b.len() == 32,
        0 <= at < 32,
        k < 8,
    ensures
        combined(a, b).len() == 32,
        bit(combined(a, b), at, k) <==> bit(a, at, k) != bit(b, at, k),
{
    let x = a[at];
    let y = b[at];
    assert(((x ^ y) >> k) & 1u8 == 1u8 <==> ((x >> k) & 1u8 == 1u8) != ((y >> k) & 1u8 == 1u8))
        by (bit_vector)
        requires
            k < 8,
    ;
}

/// Sets can be combined in any order and any grouping; combining a set twice gives back the start,
/// and a digest of zeros changes nothing.
pub proof fn law_digests_form_a_group(a: Seq<u8>, b: Seq<u8>, c: Seq<u8>)
    requires
        a.len() == 32,
        b.len() == 32,
        c.len() == 32,
    ensures
        combined(a, b) == combined(b, a),
        combined(combined(a, b), c) == combined(a, combined(b, c)),
        combined(combined(a, b), b) == a,
        combined(Seq::new(32, |i: int| 0u8), a) == a,
        combined(a, Seq::new(32, |i: int| 0u8)) == a,
{
    assert(forall|x: u8, y: u8| #[trigger] (x ^ y) == y ^ x) by (bit_vector);
    assert(forall|x: u8, y: u8, z: u8| #[trigger] ((x ^ y) ^ z) == x ^ (y ^ z)) by (bit_vector);
    assert(forall|x: u8, y: u8| #[trigger] ((x ^ y) ^ y) == x) by (bit_vector);
    assert(forall|x: u8| #[trigger] (0u8 ^ x) == x) by (bit_vector);
    assert(forall|x: u8| #[trigger] (x ^ 0u8) == x) by (bit_vector);
    let zeros = Seq::new(32, |i: int| 0u8);
    assert(combined(a, b) =~= combined(b, a));
    assert(combined(combined(a, b), c) =~= combined(a, combined(b, c)));
    assert(combined(combined(a, b), b) =~= a);
    assert(combined(zeros, a) =~= a);
    assert(combined(a, zeros) =~= a);
}

/// The default identifier is a replica and an author of zeros, without a key. The full range starts
/// and ends there: its ends are equal, so that it holds every identifier.
pub proof fn law_the_full_range_starts_and_ends_at_zeros(range: Range)
    requires
        range.is_full(),
    ensures
        range.x@ == range.y@,
        range.x@.len() == 64,
        forall|i: int| 0 <= i < 64 ==> #[trigger] range.x@[i] == 0,
        default_id() == range.x@,
{
}

} // verus!
