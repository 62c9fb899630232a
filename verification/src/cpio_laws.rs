//! What holds of every archive that the writer produces.

use crate::cpio::{
    archive_bytes, encodable, lemma_pad4, lemma_record_bytes, lemma_trailer_len, magic, pad4,
    record_len, records_bytes, trailer_bytes, trailer_name, CpioEntry,
};
use vstd::prelude::*;

verus! {

/// Where the record of the entry at index `i` begins in the archive. With `i`
/// the number of entries, it is where the closing record begins.
pub open spec fn record_offset(entries: Seq<CpioEntry>, i: int) -> nat {
    records_bytes(entries.take(i)).len()
}

/// The records of the entries take up a multiple of four bytes.
pub proof fn lemma_records_len_aligned(entries: Seq<CpioEntry>)
    ensures
        records_bytes(entries).len() % 4 == 0,
    decreases entries.len(),
{
    if entries.len() > 0 {
        lemma_records_len_aligned(entries.drop_last());
        let last = entries.last();
        lemma_record_bytes(last.header(entries.len()), last.name_bytes(), last.data@);
    }
}

/// The records of the first `k` entries are the first bytes of the records of
/// all of them.
pub proof fn lemma_records_prefix(entries: Seq<CpioEntry>, k: int)
    requires
        0 <= k <= entries.len(),
    ensures
        record_offset(entries, k) <= records_bytes(entries).len(),
        records_bytes(entries).subrange(0, record_offset(entries, k) as int) == records_bytes(
            entries.take(k),
        ),
    decreases entries.len(),
{
    if k == entries.len() {
        assert(entries.take(k) =~= entries);
        assert(records_bytes(entries).subrange(0, records_bytes(entries).len() as int)
            =~= records_bytes(entries));
    } else {
        let shorter = entries.drop_last();
        lemma_records_prefix(shorter, k);
        assert(shorter.take(k) =~= entries.take(k));
        assert(records_bytes(entries).subrange(0, record_offset(entries, k) as int)
            =~= records_bytes(shorter).subrange(0, record_offset(entries, k) as int));
    }
}

/// The record of each entry stands in the archive at its offset, under the
/// inode number that is its index plus one, and the next record begins where
/// it ends.
pub proof fn law_record_at_offset(entries: Seq<CpioEntry>, i: int)
    requires
        0 <= i < entries.len(),
    ensures
        record_offset(entries, i + 1) == record_offset(entries, i) + record_len(
            entries[i].name_bytes().len(),
            entries[i].data@.len(),
        ),
        record_offset(entries, i + 1) <= records_bytes(entries).len(),
        archive_bytes(entries).subrange(
            record_offset(entries, i) as int,
            record_offset(entries, i + 1) as int,
        ) == entries[i].record((i + 1) as nat),
{
    let upto = entries.take(i + 1);
    lemma_records_prefix(entries, i + 1);
    assert(upto.drop_last() =~= entries.take(i));
    assert(upto.last() == entries[i]);
    let e = entries[i];
    lemma_record_bytes(e.header((i + 1) as nat), e.name_bytes(), e.data@);
    let start = record_offset(entries, i) as int;
    let end = record_offset(entries, i + 1) as int;
    assert(records_bytes(upto).subrange(start, end) =~= e.record((i + 1) as nat));
    assert(archive_bytes(entries).subrange(start, end) =~= records_bytes(entries).subrange(
        0,
        end,
    ).subrange(start, end));
}

/// The first six bytes of every archive are the magic `070701`.
pub proof fn law_archive_starts_with_magic(entries: Seq<CpioEntry>)
    ensures
        archive_bytes(entries).len() >= 6,
        archive_bytes(entries).subrange(0, 6) == magic(),
{
    lemma_trailer_len();
    if entries.len() == 0 {
        assert(entries.take(0) =~= entries);
        lemma_record_bytes(crate::cpio::trailer_header(), trailer_name(), Seq::empty());
        assert(archive_bytes(entries) =~= trailer_bytes());
    } else {
        law_record_at_offset(entries, 0);
        assert(entries.take(0) =~= Seq::<CpioEntry>::empty());
        let e = entries[0];
        lemma_record_bytes(e.header(1), e.name_bytes(), e.data@);
        let end = record_offset(entries, 1) as int;
        assert(archive_bytes(entries).subrange(0, 6) =~= archive_bytes(entries).subrange(
            0,
            end,
        ).subrange(0, 6));
    }
}

/// The length of every archive is a multiple of four.
pub proof fn law_archive_length_aligned(entries: Seq<CpioEntry>)
    ensures
        archive_bytes(entries).len() % 4 == 0,
{
    lemma_records_len_aligned(entries);
    lemma_trailer_len();
}

/// The closing record is the last thing in the archive: it begins where the
/// records of the entries end, and the archive ends with it.
pub proof fn law_archive_ends_with_trailer(entries: Seq<CpioEntry>)
    ensures
        record_offset(entries, entries.len() as int) + 124 == archive_bytes(entries).len(),
        archive_bytes(entries).subrange(
            record_offset(entries, entries.len() as int) as int,
            archive_bytes(entries).len() as int,
        ) == trailer_bytes(),
{
    lemma_trailer_len();
    assert(entries.take(entries.len() as int) =~= entries);
    assert(archive_bytes(entries).subrange(
        records_bytes(entries).len() as int,
        archive_bytes(entries).len() as int,
    ) =~= trailer_bytes());
}

/// In every record the payload with its padding, and the header with the name,
/// its terminating zero and its padding, each take up a multiple of four bytes.
pub proof fn law_record_parts_aligned(entry: CpioEntry)
    ensures
        (entry.data@.len() + pad4(entry.data@.len())) % 4 == 0,
        ((entry.name_bytes().len() + 1) + 110 + pad4(110 + entry.name_bytes().len() + 1)) % 4 == 0,
{
    lemma_pad4(entry.data@.len());
    lemma_pad4(110 + entry.name_bytes().len() + 1);
}

/// In an archive that can be written, the four device fields of every
/// record are zero.
pub proof fn law_device_fields_are_zero(entries: Seq<CpioEntry>, i: int)
    requires
        encodable(entries),
        0 <= i < entries.len(),
    ensures
        entries[i].header((i + 1) as nat).dev_major == 0,
        entries[i].header((i + 1) as nat).dev_minor == 0,
        entries[i].header((i + 1) as nat).rdev_major == 0,
        entries[i].header((i + 1) as nat).rdev_minor == 0,
{
    assert(entries[i].fits());
}

/// Whether two entries say the same: the same path, payload and numbers.
pub open spec fn same_entry(a: CpioEntry, b: CpioEntry) -> bool {
    &&& a.path@ == b.path@
    &&& a.data@ == b.data@
    &&& a.mode == b.mode
    &&& a.uid == b.uid
    &&& a.gid == b.gid
    &&& a.nlink == b.nlink
    &&& a.mtime == b.mtime
    &&& a.dev_major == b.dev_major
    &&& a.dev_minor == b.dev_minor
    &&& a.rdev_major == b.rdev_major
    &&& a.rdev_minor == b.rdev_minor
}

/// The archive is decided by what the entries say and by their order: two
/// lists of entries that say the same, one by one, give the same bytes.
pub proof fn law_same_entries_same_archive(a: Seq<CpioEntry>, b: Seq<CpioEntry>)
    requires
        a.len() == b.len(),
        forall|i: int| 0 <= i < a.len() ==> same_entry(#[trigger] a[i], b[i]),
    ensures
        records_bytes(a) == records_bytes(b),
        archive_bytes(a) == archive_bytes(b),
    decreases a.len(),
{
    if a.len() > 0 {
        assert(same_entry(a[a.len() - 1], b[a.len() - 1]));
        assert forall|i: int| 0 <= i < a.drop_last().len() implies same_entry(
            #[trigger] a.drop_last()[i],
            b.drop_last()[i],
        ) by {
            assert(same_entry(a[i], b[i]));
        }
        law_same_entries_same_archive(a.drop_last(), b.drop_last());
        assert(a.last().header(a.len()) == b.last().header(b.len()));
    }
}

} // verus!
