use vstd::prelude::*;
use vstd::utf8::encode_utf8;

use core::cmp::Ordering;

use crate::navigation_state::{SortDir, SortField};
use crate::note_entry::NoteEntry;

verus! {

/// `o` seen from the other side.
pub open spec fn flipped(o: Ordering) -> Ordering {
    match o {
        Ordering::Less => Ordering::Greater,
        Ordering::Equal => Ordering::Equal,
        Ordering::Greater => Ordering::Less,
    }
}

/// Lexicographic order of byte strings: the first differing byte decides,
/// and a proper prefix comes first.
pub open spec fn bytes_cmp(a: Seq<u8>, b: Seq<u8>) -> Ordering
    decreases a.len(),
{
    if a.len() == 0 {
        if b.len() == 0 {
            Ordering::Equal
        } else {
            Ordering::Less
        }
    } else if b.len() == 0 {
        Ordering::Greater
    } else if a[0] < b[0] {
        Ordering::Less
    } else if a[0] > b[0] {
        Ordering::Greater
    } else {
        bytes_cmp(a.drop_first(), b.drop_first())
    }
}

/// The order of two integers.
pub open spec fn int_cmp(a: int, b: int) -> Ordering {
    if a < b {
        Ordering::Less
    } else if a > b {
        Ordering::Greater
    } else {
        Ordering::Equal
    }
}

/// The ascending order of two notes on `field`: by modification time, by
/// size, or by the bytes of the name.
pub open spec fn ascending_cmp(a: NoteEntry, b: NoteEntry, field: SortField) -> Ordering {
    match field {
        SortField::Modified => int_cmp(a.modified as int, b.modified as int),
        SortField::Size => int_cmp(a.size as int, b.size as int),
        SortField::Name => bytes_cmp(encode_utf8(a.name@), encode_utf8(b.name@)),
    }
}

/// The order of two notes on `field` in direction `dir`.
pub open spec fn note_cmp(a: NoteEntry, b: NoteEntry, field: SortField, dir: SortDir) -> Ordering {
    match dir {
        SortDir::Asc => ascending_cmp(a, b, field),
        SortDir::Desc => ascending_cmp(b, a, field),
    }
}

/// `note_cmp` on `field` and `dir` is a total order: every note equals
/// itself, swapping the arguments flips the answer, and "not after" is
/// transitive.
pub open spec fn note_order_is_total(field: SortField, dir: SortDir) -> bool {
    &&& forall|a: NoteEntry| #[trigger] note_cmp(a, a, field, dir) == Ordering::Equal
    &&& forall|a: NoteEntry, b: NoteEntry|
        #[trigger] note_cmp(a, b, field, dir) == flipped(note_cmp(b, a, field, dir))
    &&& forall|a: NoteEntry, b: NoteEntry, c: NoteEntry|
        #![trigger note_cmp(a, b, field, dir), note_cmp(b, c, field, dir)]
        note_cmp(a, b, field, dir) != Ordering::Greater && note_cmp(b, c, field, dir)
            != Ordering::Greater ==> note_cmp(a, c, field, dir) != Ordering::Greater
}

/// The entries are in the order of `note_cmp`.
pub open spec fn notes_sorted(entries: Seq<NoteEntry>, field: SortField, dir: SortDir) -> bool {
    forall|i: int, j: int|
        0 <= i < j < entries.len() ==> note_cmp(entries[i], entries[j], field, dir)
            != Ordering::Greater
}

proof fn lemma_bytes_cmp_reflexive(a: Seq<u8>)
    ensures
        bytes_cmp(a, a) == Ordering::Equal,
    decreases a.len(),
{
    if a.len() > 0 {
        lemma_bytes_cmp_reflexive(a.drop_first());
    }
}

proof fn lemma_bytes_cmp_flip(a: Seq<u8>, b: Seq<u8>)
    ensures
        bytes_cmp(a, b) == flipped(bytes_cmp(b, a)),
    decreases a.len(),
{
    if a.len() > 0 && b.len() > 0 && a[0] == b[0] {
        lemma_bytes_cmp_flip(a.drop_first(), b.drop_first());
    }
}

proof fn lemma_bytes_cmp_transitive(a: Seq<u8>, b: Seq<u8>, c: Seq<u8>)
    requires
        bytes_cmp(a, b) != Ordering::Greater,
        bytes_cmp(b, c) != Ordering::Greater,
    ensures
        bytes_cmp(a, c) != Ordering::Greater,
    decreases a.len(),
{
    if a.len() > 0 && b.len() > 0 && c.len() > 0 && a[0] == b[0] && b[0] == c[0] {
        lemma_bytes_cmp_transitive(a.drop_first(), b.drop_first(), c.drop_first());
    }
}

/// The note order is a total order on every field and in both directions.
pub proof fn lemma_note_order_is_total(field: SortField, dir: SortDir)
    ensures
        note_order_is_total(field, dir),
{
    assert forall|a: NoteEntry| #[trigger] note_cmp(a, a, field, dir) == Ordering::Equal by {
        lemma_bytes_cmp_reflexive(encode_utf8(a.name@));
    }
    assert forall|a: NoteEntry, b: NoteEntry|
        #[trigger] note_cmp(a, b, field, dir) == flipped(note_cmp(b, a, field, dir)) by {
        lemma_bytes_cmp_flip(encode_utf8(a.name@), encode_utf8(b.name@));
    }
    assert forall|a: NoteEntry, b: NoteEntry, c: NoteEntry|
        #![trigger note_cmp(a, b, field, dir), note_cmp(b, c, field, dir)]
        note_cmp(a, b, field, dir) != Ordering::Greater && note_cmp(b, c, field, dir)
            != Ordering::Greater implies note_cmp(a, c, field, dir) != Ordering::Greater by {
        let (x, y, z) = (encode_utf8(a.name@), encode_utf8(b.name@), encode_utf8(c.name@));
        if field == SortField::Name {
            if dir == SortDir::Asc {
                lemma_bytes_cmp_transitive(x, y, z);
            } else {
                lemma_bytes_cmp_transitive(z, y, x);
            }
        }
    }
}

/// Compares two byte strings lexicographically.
pub fn compare_bytes(a: &[u8], b: &[u8]) -> (r: Ordering)
    ensures
        r == bytes_cmp(a@, b@),
{
    let mut i: usize = 0;
    proof {
        assert(a@.skip(0) =~= a@);
        assert(b@.skip(0) =~= b@);
    }
    while i < a.len() && i < b.len()
        invariant
            i <= a.len(),
            i <= b.len(),
            bytes_cmp(a@, b@) == bytes_cmp(a@.skip(i as int), b@.skip(i as int)),
        decreases a.len() - i,
    {
        if a[i] < b[i] {
            return Ordering::Less;
        } else if a[i] > b[i] {
            return Ordering::Greater;
        }
        proof {
            assert(a@.skip(i as int).drop_first() =~= a@.skip(i + 1));
            assert(b@.skip(i as int).drop_first() =~= b@.skip(i + 1));
        }
        i = i + 1;
    }
    if a.len() == b.len() {
        Ordering::Equal
    } else if i == a.len() {
        Ordering::Less
    } else {
        Ordering::Greater
    }
}

fn compare_integers(a: u64, b: u64) -> (r: Ordering)
    ensures
        r == int_cmp(a as int, b as int),
{
    if a < b {
        Ordering::Less
    } else if a > b {
        Ordering::Greater
    } else {
        Ordering::Equal
    }
}

fn compare_times(a: i64, b: i64) -> (r: Ordering)
    ensures
        r == int_cmp(a as int, b as int),
{
    if a < b {
        Ordering::Less
    } else if a > b {
        Ordering::Greater
    } else {
        Ordering::Equal
    }
}

/// Compares two notes on `field` in direction `dir`.
pub fn compare_notes(a: &NoteEntry, b: &NoteEntry, field: SortField, dir: SortDir) -> (r: Ordering)
    ensures
        r == note_cmp(*a, *b, field, dir),
{
    let (first, second) = match dir {
        SortDir::Asc => (a, b),
        SortDir::Desc => (b, a),
    };
    match field {
        SortField::Modified => compare_times(first.modified, second.modified),
        SortField::Size => compare_integers(first.size, second.size),
        SortField::Name => compare_bytes(
            first.name.as_str().as_bytes(),
            second.name.as_str().as_bytes(),
        ),
    }
}

/// Relies on `slice::sort_by` from std: a stable sort that permutes the
/// entries and, when the comparison is a total order, leaves them ordered by
/// it. The closure only calls `compare_notes`.
#[verifier::external_body]
fn sort_by_note_order(entries: &mut Vec<NoteEntry>, field: SortField, dir: SortDir)
    requires
        note_order_is_total(field, dir),
    ensures
        final(entries)@.to_multiset() == old(entries)@.to_multiset(),
        notes_sorted(final(entries)@, field, dir),
{
    entries.sort_by(|a, b| compare_notes(a, b, field, dir))
}

/// Puts the notes in the order that the browser shows: by `field`, in
/// direction `dir`; notes that compare equal keep their relative order.
pub fn sort_notes(entries: &mut Vec<NoteEntry>, field: SortField, dir: SortDir)
    ensures
        final(entries)@.to_multiset() == old(entries)@.to_multiset(),
        notes_sorted(final(entries)@, field, dir),
{
    proof {
        lemma_note_order_is_total(field, dir);
    }
    sort_by_note_order(entries, field, dir);
}

} // verus!
