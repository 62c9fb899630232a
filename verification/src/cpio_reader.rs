//! Reading an archive back, as a specification: what a reader of the newc
//! format finds in a sequence of bytes. It says that the writer's archives
//! hold what was put into them, and nothing else.

use crate::cpio::{
    archive_bytes, encodable, lemma_header_bytes, lemma_pad4, lemma_record_bytes,
    lemma_trailer_name_is_text, magic, pad4,
    record_bytes, record_len, trailer_bytes, trailer_header, trailer_name, zeros,
    CpioEntry, Header,
};
use crate::cpio_laws::{law_archive_ends_with_trailer, law_record_at_offset, record_offset};
use crate::hex::{hex_field, hex_field_value, lemma_hex_field_len, lemma_hex_field_value};
use vstd::prelude::*;

verus! {

/// One record as a reader finds it.
pub struct Record {
    pub header: Header,
    pub name: Seq<u8>,
    pub data: Seq<u8>,
}

/// The `k`-th field of a header that begins `bytes`, counted from 0: eight
/// bytes behind the magic and the fields before it.
pub open spec fn field_at(bytes: Seq<u8>, k: int) -> Seq<u8> {
    bytes.subrange(6 + 8 * k, 14 + 8 * k)
}

/// The number in the `k`-th field, if the field is eight hexadecimal digits.
pub open spec fn number_at(bytes: Seq<u8>, k: int) -> Option<nat> {
    hex_field_value(field_at(bytes, k))
}

/// Whether `bytes` begins with a header: 110 bytes, the magic first, then
/// thirteen fields of hexadecimal digits, the last of them zero.
pub open spec fn has_header(bytes: Seq<u8>) -> bool {
    &&& bytes.len() >= 110
    &&& bytes.subrange(0, 6) == magic()
    &&& forall|k: int| 0 <= k < 13 ==> (#[trigger] number_at(bytes, k)).is_some()
    &&& number_at(bytes, 12) == Some(0nat)
}

/// The header that begins `bytes`.
#[verifier::opaque]
pub open spec fn read_header(bytes: Seq<u8>) -> Option<Header> {
    if has_header(bytes) {
        Some(
            Header {
                ino: number_at(bytes, 0).unwrap(),
                mode: number_at(bytes, 1).unwrap(),
                uid: number_at(bytes, 2).unwrap(),
                gid: number_at(bytes, 3).unwrap(),
                nlink: number_at(bytes, 4).unwrap(),
                mtime: number_at(bytes, 5).unwrap(),
                filesize: number_at(bytes, 6).unwrap(),
                dev_major: number_at(bytes, 7).unwrap(),
                dev_minor: number_at(bytes, 8).unwrap(),
                rdev_major: number_at(bytes, 9).unwrap(),
                rdev_minor: number_at(bytes, 10).unwrap(),
                namesize: number_at(bytes, 11).unwrap(),
            },
        )
    } else {
        None
    }
}

/// The record that begins `bytes`, and its length: the header, the name of
/// the size that the header gives, closed by a zero, and behind the padding
/// the payload of the size that the header gives, with its padding.
#[verifier::opaque]
pub open spec fn read_record(bytes: Seq<u8>) -> Option<(Record, nat)> {
    match read_header(bytes) {
        None => None,
        Some(header) => {
            let name_len = (header.namesize - 1) as nat;
            let total = record_len(name_len, header.filesize);
            let data_start = 110 + header.namesize + pad4(110 + header.namesize);
            if header.namesize >= 1 && bytes.len() >= total && bytes[110 + name_len as int] == 0 {
                Some(
                    (
                        Record {
                            header,
                            name: bytes.subrange(110, 110 + name_len as int),
                            data: bytes.subrange(
                                data_start as int,
                                data_start as int + header.filesize as int,
                            ),
                        },
                        total,
                    ),
                )
            } else {
                None
            }
        },
    }
}

/// The records of the archive that `bytes` is, up to the closing record,
/// which has to be the end of the bytes. Bytes that are no such archive read
/// as nothing.
pub open spec fn read_archive(bytes: Seq<u8>) -> Option<Seq<Record>>
    decreases bytes.len(),
{
    match read_record(bytes) {
        None => None,
        Some((record, total)) => {
            if record.name == trailer_name() {
                if total == bytes.len() {
                    Some(Seq::empty())
                } else {
                    None
                }
            } else if 0 < total <= bytes.len() {
                match read_archive(bytes.skip(total as int)) {
                    None => None,
                    Some(rest) => Some(seq![record] + rest),
                }
            } else {
                None
            }
        },
    }
}

/// The records that an archive of `entries` is to read back as: each entry's
/// header under its inode number, its name and its payload.
pub open spec fn records_of(entries: Seq<CpioEntry>) -> Seq<Record> {
    Seq::new(
        entries.len(),
        |i: int|
            Record {
                header: entries[i].header((i + 1) as nat),
                name: entries[i].name_bytes(),
                data: entries[i].data@,
            },
    )
}

/// Whether every number of a header fits a field.
pub open spec fn header_fits(header: Header) -> bool {
    &&& header.ino < 0x1_0000_0000
    &&& header.mode < 0x1_0000_0000
    &&& header.uid < 0x1_0000_0000
    &&& header.gid < 0x1_0000_0000
    &&& header.nlink < 0x1_0000_0000
    &&& header.mtime < 0x1_0000_0000
    &&& header.filesize < 0x1_0000_0000
    &&& header.dev_major < 0x1_0000_0000
    &&& header.dev_minor < 0x1_0000_0000
    &&& header.rdev_major < 0x1_0000_0000
    &&& header.rdev_minor < 0x1_0000_0000
    &&& header.namesize < 0x1_0000_0000
}

/// The fields of a written header stand where a reader looks for them.
proof fn lemma_fields_in_place(header: Header)
    ensures
        field_at(header.bytes(), 0) == hex_field(header.ino),
        field_at(header.bytes(), 1) == hex_field(header.mode),
        field_at(header.bytes(), 2) == hex_field(header.uid),
        field_at(header.bytes(), 3) == hex_field(header.gid),
        field_at(header.bytes(), 4) == hex_field(header.nlink),
        field_at(header.bytes(), 5) == hex_field(header.mtime),
        field_at(header.bytes(), 6) == hex_field(header.filesize),
        field_at(header.bytes(), 7) == hex_field(header.dev_major),
        field_at(header.bytes(), 8) == hex_field(header.dev_minor),
        field_at(header.bytes(), 9) == hex_field(header.rdev_major),
        field_at(header.bytes(), 10) == hex_field(header.rdev_minor),
        field_at(header.bytes(), 11) == hex_field(header.namesize),
        field_at(header.bytes(), 12) == hex_field(0),
{
    reveal(Header::bytes);
    lemma_hex_field_len(header.ino);
    lemma_hex_field_len(header.mode);
    lemma_hex_field_len(header.uid);
    lemma_hex_field_len(header.gid);
    lemma_hex_field_len(header.nlink);
    lemma_hex_field_len(header.mtime);
    lemma_hex_field_len(header.filesize);
    lemma_hex_field_len(header.dev_major);
    lemma_hex_field_len(header.dev_minor);
    lemma_hex_field_len(header.rdev_major);
    lemma_hex_field_len(header.rdev_minor);
    lemma_hex_field_len(header.namesize);
    lemma_hex_field_len(0);
    let b = header.bytes();
    assert(field_at(b, 0) =~= hex_field(header.ino));
    assert(field_at(b, 1) =~= hex_field(header.mode));
    assert(field_at(b, 2) =~= hex_field(header.uid));
    assert(field_at(b, 3) =~= hex_field(header.gid));
    assert(field_at(b, 4) =~= hex_field(header.nlink));
    assert(field_at(b, 5) =~= hex_field(header.mtime));
    assert(field_at(b, 6) =~= hex_field(header.filesize));
    assert(field_at(b, 7) =~= hex_field(header.dev_major));
    assert(field_at(b, 8) =~= hex_field(header.dev_minor));
    assert(field_at(b, 9) =~= hex_field(header.rdev_major));
    assert(field_at(b, 10) =~= hex_field(header.rdev_minor));
    assert(field_at(b, 11) =~= hex_field(header.namesize));
    assert(field_at(b, 12) =~= hex_field(0));
}

/// A written header, whatever follows it, reads back as it was written.
pub proof fn lemma_read_header(header: Header, rest: Seq<u8>)
    requires
        header_fits(header),
    ensures
        read_header(header.bytes() + rest) == Some(header),
{
    reveal(read_header);
    let bytes = header.bytes() + rest;
    lemma_header_bytes(header);
    lemma_fields_in_place(header);
    assert(bytes.subrange(0, 6) =~= header.bytes().subrange(0, 6));
    assert forall|k: int| 0 <= k < 13 implies field_at(bytes, k) == field_at(header.bytes(), k) by {
        assert(field_at(bytes, k) =~= field_at(header.bytes(), k));
    }
    lemma_hex_field_value(header.ino);
    lemma_hex_field_value(header.mode);
    lemma_hex_field_value(header.uid);
    lemma_hex_field_value(header.gid);
    lemma_hex_field_value(header.nlink);
    lemma_hex_field_value(header.mtime);
    lemma_hex_field_value(header.filesize);
    lemma_hex_field_value(header.dev_major);
    lemma_hex_field_value(header.dev_minor);
    lemma_hex_field_value(header.rdev_major);
    lemma_hex_field_value(header.rdev_minor);
    lemma_hex_field_value(header.namesize);
    lemma_hex_field_value(0);
    assert(number_at(bytes, 0) == Some(header.ino));
    assert(number_at(bytes, 1) == Some(header.mode));
    assert(number_at(bytes, 2) == Some(header.uid));
    assert(number_at(bytes, 3) == Some(header.gid));
    assert(number_at(bytes, 4) == Some(header.nlink));
    assert(number_at(bytes, 5) == Some(header.mtime));
    assert(number_at(bytes, 6) == Some(header.filesize));
    assert(number_at(bytes, 7) == Some(header.dev_major));
    assert(number_at(bytes, 8) == Some(header.dev_minor));
    assert(number_at(bytes, 9) == Some(header.rdev_major));
    assert(number_at(bytes, 10) == Some(header.rdev_minor));
    assert(number_at(bytes, 11) == Some(header.namesize));
    assert(number_at(bytes, 12) == Some(0nat));
    assert forall|k: int| 0 <= k < 13 implies (#[trigger] number_at(bytes, k)).is_some() by {
        if k == 0 {
        } else if k == 1 {
        } else if k == 2 {
        } else if k == 3 {
        } else if k == 4 {
        } else if k == 5 {
        } else if k == 6 {
        } else if k == 7 {
        } else if k == 8 {
        } else if k == 9 {
        } else if k == 10 {
        } else if k == 11 {
        } else {
        }
    }
}

/// A written record, whatever follows it, reads back as it was written, and
/// the reader goes on behind it.
pub proof fn lemma_read_record(header: Header, name: Seq<u8>, data: Seq<u8>, rest: Seq<u8>)
    requires
        header_fits(header),
        header.namesize == name.len() + 1,
        header.filesize == data.len(),
    ensures
        read_record(record_bytes(header, name, data) + rest) == Some(
            (Record { header, name, data }, record_len(name.len(), data.len())),
        ),
        record_len(name.len(), data.len()) == record_bytes(header, name, data).len(),
        record_len(name.len(), data.len()) >= 110,
{
    let record = record_bytes(header, name, data);
    let bytes = record + rest;
    let behind = name + seq![0u8] + zeros(pad4(110 + name.len() + 1)) + data + zeros(
        pad4(data.len()),
    ) + rest;
    lemma_header_bytes(header);
    lemma_record_bytes(header, name, data);
    lemma_pad4(110 + name.len() + 1);
    lemma_pad4(data.len());
    assert(bytes =~= header.bytes() + behind);
    lemma_read_header(header, behind);
    let data_start = 110 + header.namesize + pad4(110 + header.namesize);
    assert(bytes.subrange(110, 110 + name.len() as int) == name) by {
        assert(bytes.subrange(110, 110 + name.len() as int) =~= name);
    }
    assert(bytes[110 + name.len() as int] == 0);
    assert(bytes.subrange(data_start as int, data_start as int + header.filesize as int) == data)
        by {
        assert(bytes.subrange(data_start as int, data_start as int + header.filesize as int)
            =~= data);
    }
    reveal(read_record);
}

/// The archive from the record of the entry at index `k` on reads back as
/// the records of the entries from that index on.
proof fn lemma_reads_back_from(entries: Seq<CpioEntry>, k: int)
    requires
        encodable(entries),
        forall|i: int| 0 <= i < entries.len() ==> (#[trigger] entries[i]).name_bytes() != trailer_name(),
        0 <= k <= entries.len(),
    ensures
        record_offset(entries, k) <= archive_bytes(entries).len(),
        read_archive(archive_bytes(entries).skip(record_offset(entries, k) as int)) == Some(
            records_of(entries).skip(k),
        ),
    decreases entries.len() - k,
{
    let archive = archive_bytes(entries);
    let from = archive.skip(record_offset(entries, k) as int);
    if k == entries.len() {
        law_archive_ends_with_trailer(entries);
        assert(from =~= trailer_bytes());
        lemma_read_record(trailer_header(), trailer_name(), Seq::empty(), Seq::empty());
        assert(trailer_bytes() + Seq::<u8>::empty() =~= trailer_bytes());
        assert(records_of(entries).skip(k) =~= Seq::<Record>::empty());
    } else {
        let entry = entries[k];
        let header = entry.header((k + 1) as nat);
        law_record_at_offset(entries, k);
        lemma_reads_back_from(entries, k + 1);
        let next = archive.skip(record_offset(entries, k + 1) as int);
        assert(entry.fits());
        assert(from =~= entry.record((k + 1) as nat) + next);
        lemma_read_record(header, entry.name_bytes(), entry.data@, next);
        let total = record_len(entry.name_bytes().len(), entry.data@.len());
        assert(from.skip(total as int) =~= next);
        assert(records_of(entries).skip(k) =~= seq![records_of(entries)[k]] + records_of(
            entries,
        ).skip(k + 1));
    }
}

/// An archive reads back as what was put into it: the records of its
/// entries, in their order, each under its inode number, with its name and
/// its payload; then the closing record, and nothing behind it. So exactly
/// one record of the archive is named `TRAILER!!!`, the last. This holds
/// where the archive can be written and no entry is itself named
/// `TRAILER!!!`, at which a reader would stop.
pub proof fn law_archive_reads_back(entries: Seq<CpioEntry>)
    requires
        encodable(entries),
        forall|i: int| 0 <= i < entries.len() ==> (#[trigger] entries[i]).path@ != "TRAILER!!!"@,
    ensures
        read_archive(archive_bytes(entries)) == Some(records_of(entries)),
        records_of(entries).len() == entries.len(),
        forall|i: int|
            0 <= i < entries.len() ==> (#[trigger] records_of(entries)[i]).name != trailer_name(),
{
    assert forall|i: int| 0 <= i < entries.len() implies (#[trigger] entries[i]).name_bytes()
        != trailer_name() by {
        lemma_trailer_name_is_text(entries[i].path@);
    }
    lemma_reads_back_from(entries, 0);
    assert(entries.take(0) =~= Seq::<CpioEntry>::empty());
    assert(archive_bytes(entries).skip(0) =~= archive_bytes(entries));
    assert(records_of(entries).skip(0) =~= records_of(entries));
}

} // verus!
