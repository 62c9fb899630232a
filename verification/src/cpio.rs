//! The newc CPIO format: what an archive is, byte for byte, and the writer
//! that produces it.

use crate::error::BuilderError;
use crate::hex::{hex_field, lemma_hex_field_len, push_hex_field};
use vstd::prelude::*;
use vstd::string::StrSliceExecFns;
use vstd::string::StringExecFns;
use vstd::utf8::encode_utf8;

verus! {

/// The largest number that a header field can hold.
pub const FIELD_MAX: usize = 0xFFFF_FFFF;

/// How many zero bytes bring a length of `n` to the next multiple of four.
pub open spec fn pad4(n: nat) -> nat {
    ((4 - n % 4) % 4) as nat
}

/// `n` zero bytes.
pub open spec fn zeros(n: nat) -> Seq<u8> {
    Seq::new(n, |i: int| 0u8)
}

/// The six bytes `070701` that open every newc header.
pub open spec fn magic() -> Seq<u8> {
    seq![48u8, 55u8, 48u8, 55u8, 48u8, 49u8]
}

/// The bytes of the name `TRAILER!!!`, which closes an archive.
pub open spec fn trailer_name() -> Seq<u8> {
    seq![84u8, 82u8, 65u8, 73u8, 76u8, 69u8, 82u8, 33u8, 33u8, 33u8]
}

/// The numbers that a header spells out, in the order of its fields. The
/// thirteenth field, the checksum, is always zero and is not kept here.
pub struct Header {
    pub ino: nat,
    pub mode: nat,
    pub uid: nat,
    pub gid: nat,
    pub nlink: nat,
    pub mtime: nat,
    pub filesize: nat,
    pub dev_major: nat,
    pub dev_minor: nat,
    pub rdev_major: nat,
    pub rdev_minor: nat,
    pub namesize: nat,
}

impl Header {
    /// The 110 bytes of the header.
    #[verifier::opaque]
    pub open spec fn bytes(self) -> Seq<u8> {
        magic() + hex_field(self.ino) + hex_field(self.mode) + hex_field(self.uid) + hex_field(
            self.gid,
        ) + hex_field(self.nlink) + hex_field(self.mtime) + hex_field(self.filesize) + hex_field(
            self.dev_major,
        ) + hex_field(self.dev_minor) + hex_field(self.rdev_major) + hex_field(self.rdev_minor)
            + hex_field(self.namesize) + hex_field(0)
    }
}

/// One record of an archive: the header, the name with its terminating zero,
/// zeros up to a multiple of four, the payload, and zeros up to a multiple of
/// four again. Both counts run from the start of the header.
pub open spec fn record_bytes(header: Header, name: Seq<u8>, data: Seq<u8>) -> Seq<u8> {
    header.bytes() + name + seq![0u8] + zeros(pad4(110 + name.len() + 1)) + data + zeros(
        pad4(data.len()),
    )
}

/// The length of a record with a name of `name_len` bytes and a payload of
/// `data_len` bytes.
pub open spec fn record_len(name_len: nat, data_len: nat) -> nat {
    110 + name_len + 1 + pad4(110 + name_len + 1) + data_len + pad4(data_len)
}

/// The header of the closing record: every field zero but the link count, 1,
/// and the name size, 11.
pub open spec fn trailer_header() -> Header {
    Header {
        ino: 0,
        mode: 0,
        uid: 0,
        gid: 0,
        nlink: 1,
        mtime: 0,
        filesize: 0,
        dev_major: 0,
        dev_minor: 0,
        rdev_major: 0,
        rdev_minor: 0,
        namesize: 11,
    }
}

/// The closing record. It has no payload, and ends the archive.
pub open spec fn trailer_bytes() -> Seq<u8> {
    record_bytes(trailer_header(), trailer_name(), Seq::empty())
}

/// Padding is less than four bytes and completes a multiple of four.
pub proof fn lemma_pad4(n: nat)
    ensures
        pad4(n) < 4,
        (n + pad4(n)) % 4 == 0,
        n % 4 == 0 ==> pad4(n) == 0,
{
}

/// A header is 110 bytes long and opens with the magic.
pub proof fn lemma_header_bytes(header: Header)
    ensures
        header.bytes().len() == 110,
        header.bytes().subrange(0, 6) == magic(),
{
    reveal(Header::bytes);
    lemma_hex_field_len(header.ino);
    lemma_hex_field_len(header.mode);
    lemma_hex_field_len(header.uid);
    lemma_hex_field_len(header.gid);
    lemma_hex_field_len(header.nlink);
    lemma_hex_field_len(header.mtime);
    lemma_hex_field_len(header.filesize);
    lemma_hex_field_len(header.dev_major);
    lemma_hex_field_len(header.dev_minor);
    lemma_hex_field_len(header.rdev_major);
    lemma_hex_field_len(header.rdev_minor);
    lemma_hex_field_len(header.namesize);
    lemma_hex_field_len(0);
    assert(header.bytes().subrange(0, 6) =~= magic());
}

/// The length of a record, which is a multiple of four; the header comes
/// first in it.
pub proof fn lemma_record_bytes(header: Header, name: Seq<u8>, data: Seq<u8>)
    ensures
        record_bytes(header, name, data).len() == record_len(name.len(), data.len()),
        record_len(name.len(), data.len()) % 4 == 0,
        record_bytes(header, name, data).subrange(0, 110) == header.bytes(),
        record_bytes(header, name, data).subrange(0, 6) == magic(),
{
    lemma_header_bytes(header);
    lemma_pad4(110 + name.len() + 1);
    lemma_pad4(data.len());
    let r = record_bytes(header, name, data);
    assert(r.subrange(0, 110) =~= header.bytes());
    assert(r.subrange(0, 6) =~= header.bytes().subrange(0, 6));
}

/// The name of the closing record is the text `TRAILER!!!`, so an entry bears
/// that name exactly when its path is that text.
pub proof fn lemma_trailer_name_is_text(path: Seq<char>)
    ensures
        trailer_name() == encode_utf8("TRAILER!!!"@),
        (encode_utf8(path) == trailer_name()) <==> path == "TRAILER!!!"@,
{
    let text = "TRAILER!!!"@;
    reveal_strlit("TRAILER!!!");
    assert(vstd::utf8::is_ascii_chars(text));
    vstd::utf8::is_ascii_chars_encode_utf8(text);
    assert(encode_utf8(text) =~= trailer_name());
    crate::text::lemma_encoding_tells_texts_apart(path, text);
}

/// The closing record is 124 bytes long.
pub proof fn lemma_trailer_len()
    ensures
        trailer_bytes().len() == 124,
{
    lemma_record_bytes(trailer_header(), trailer_name(), Seq::empty());
}

/// One path of the tree to be archived, with what the archive says of it.
#[derive(Debug, Clone)]
pub struct CpioEntry {
    /// The path inside the archive, without a leading slash.
    pub path: String,
    /// The unix mode, file-type bits included.
    pub mode: u32,
    pub uid: u32,
    pub gid: u32,
    pub nlink: u32,
    pub mtime: u32,
    /// A file's contents, a symbolic link's target, or nothing.
    pub data: Vec<u8>,
    /// The four device numbers. An archive holds them as zero, and an entry
    /// that has another value in one of them cannot be written.
    pub dev_major: u32,
    pub dev_minor: u32,
    pub rdev_major: u32,
    pub rdev_minor: u32,
}

impl CpioEntry {
    /// The name as the archive holds it: the path in UTF-8.
    pub open spec fn name_bytes(&self) -> Seq<u8> {
        encode_utf8(self.path@)
    }

    /// Whether the entry can be written: the name and the payload are short
    /// enough for their sizes to be written in eight hexadecimal digits, and
    /// the four device numbers are zero.
    pub open spec fn fits(&self) -> bool {
        &&& self.name_bytes().len() + 1 <= FIELD_MAX
        &&& self.data@.len() <= FIELD_MAX
        &&& self.dev_major == 0
        &&& self.dev_minor == 0
        &&& self.rdev_major == 0
        &&& self.rdev_minor == 0
    }

    /// The header of this entry when it is given the inode number `ino`.
    pub open spec fn header(&self, ino: nat) -> Header {
        Header {
            ino,
            mode: self.mode as nat,
            uid: self.uid as nat,
            gid: self.gid as nat,
            nlink: self.nlink as nat,
            mtime: self.mtime as nat,
            filesize: self.data@.len(),
            dev_major: self.dev_major as nat,
            dev_minor: self.dev_minor as nat,
            rdev_major: self.rdev_major as nat,
            rdev_minor: self.rdev_minor as nat,
            namesize: self.name_bytes().len() + 1,
        }
    }

    /// The record of this entry under the inode number `ino`.
    pub open spec fn record(&self, ino: nat) -> Seq<u8> {
        record_bytes(self.header(ino), self.name_bytes(), self.data@)
    }
}

/// Appends `n` zero bytes.
fn push_zeros(out: &mut Vec<u8>, n: u64)
    requires
        n < 4,
    ensures
        final(out)@ == old(out)@ + zeros(n as nat),
{
    let mut i: u64 = 0;
    while i < n
        invariant
            i <= n < 4,
            out@ == old(out)@ + zeros(i as nat),
        decreases n - i,
    {
        out.push(0u8);
        i += 1;
        assert(out@ =~= old(out)@ + zeros(i as nat));
    }
}

/// Appends the bytes of `src`.
fn push_bytes(out: &mut Vec<u8>, src: &[u8])
    ensures
        final(out)@ == old(out)@ + src@,
{
    let mut i: usize = 0;
    while i < src.len()
        invariant
            i <= src.len(),
            out@ == old(out)@ + src@.take(i as int),
        decreases src.len() - i,
    {
        out.push(src[i]);
        i += 1;
        assert(out@ =~= old(out)@ + src@.take(i as int));
    }
    assert(src@.take(i as int) =~= src@);
}

/// How many zero bytes follow a length of `n`.
fn padding(n: u64) -> (p: u64)
    ensures
        p == pad4(n as nat),
        p < 4,
{
    (4 - n % 4) % 4
}

/// Appends the magic and the thirteen fields.
fn write_header(
    out: &mut Vec<u8>,
    ino: u32,
    mode: u32,
    uid: u32,
    gid: u32,
    nlink: u32,
    mtime: u32,
    filesize: u32,
    dev_major: u32,
    dev_minor: u32,
    rdev_major: u32,
    rdev_minor: u32,
    namesize: u32,
)
    ensures
        final(out)@ == old(out)@ + (Header {
            ino: ino as nat,
            mode: mode as nat,
            uid: uid as nat,
            gid: gid as nat,
            nlink: nlink as nat,
            mtime: mtime as nat,
            filesize: filesize as nat,
            dev_major: dev_major as nat,
            dev_minor: dev_minor as nat,
            rdev_major: rdev_major as nat,
            rdev_minor: rdev_minor as nat,
            namesize: namesize as nat,
        }).bytes(),
{
    proof {
        reveal(Header::bytes);
    }
    out.push(48u8);
    out.push(55u8);
    out.push(48u8);
    out.push(55u8);
    out.push(48u8);
    out.push(49u8);
    assert(out@ =~= old(out)@ + magic());
    push_hex_field(out, ino);
    push_hex_field(out, mode);
    push_hex_field(out, uid);
    push_hex_field(out, gid);
    push_hex_field(out, nlink);
    push_hex_field(out, mtime);
    push_hex_field(out, filesize);
    push_hex_field(out, dev_major);
    push_hex_field(out, dev_minor);
    push_hex_field(out, rdev_major);
    push_hex_field(out, rdev_minor);
    push_hex_field(out, namesize);
    push_hex_field(out, 0);
    assert(out@ =~= old(out)@ + (Header {
        ino: ino as nat,
        mode: mode as nat,
        uid: uid as nat,
        gid: gid as nat,
        nlink: nlink as nat,
        mtime: mtime as nat,
        filesize: filesize as nat,
        dev_major: dev_major as nat,
        dev_minor: dev_minor as nat,
        rdev_major: rdev_major as nat,
        rdev_minor: rdev_minor as nat,
        namesize: namesize as nat,
    }).bytes());
}

/// The records of `entries`, in order; the entry at index `i` gets the inode
/// number `i + 1`.
pub open spec fn records_bytes(entries: Seq<CpioEntry>) -> Seq<u8>
    decreases entries.len(),
{
    if entries.len() == 0 {
        Seq::empty()
    } else {
        records_bytes(entries.drop_last()) + entries.last().record(entries.len())
    }
}

/// The whole archive: the records of the entries, then the closing record.
pub open spec fn archive_bytes(entries: Seq<CpioEntry>) -> Seq<u8> {
    records_bytes(entries) + trailer_bytes()
}

/// Whether the entries can be written: every inode number and every size has
/// to fit a header field, and every device number has to be zero.
pub open spec fn encodable(entries: Seq<CpioEntry>) -> bool {
    &&& entries.len() <= FIELD_MAX
    &&& forall|i: int| 0 <= i < entries.len() ==> (#[trigger] entries[i]).fits()
}

/// An ordered list of entries, to be written as one newc archive.
pub struct CpioArchive {
    entries: Vec<CpioEntry>,
}

impl View for CpioArchive {
    type V = Seq<CpioEntry>;

    closed spec fn view(&self) -> Seq<CpioEntry> {
        self.entries@
    }
}

impl CpioArchive {
    /// An archive without entries.
    pub fn new() -> (archive: Self)
        ensures
            archive@ == Seq::<CpioEntry>::empty(),
    {
        CpioArchive { entries: Vec::new() }
    }

    /// Puts `entry` behind the entries that are there.
    pub fn add_entry(&mut self, entry: CpioEntry)
        ensures
            final(self)@ == old(self)@.push(entry),
    {
        self.entries.push(entry);
    }

    /// The number of entries; the closing record is not counted.
    pub fn len(&self) -> (n: usize)
        ensures
            n == self@.len(),
    {
        self.entries.len()
    }

    /// Whether the archive has no entry.
    pub fn is_empty(&self) -> (empty: bool)
        ensures
            empty == (self@.len() == 0),
    {
        self.entries.len() == 0
    }

    /// Whether `write_to` can write this archive.
    pub fn is_encodable(&self) -> (ok: bool)
        ensures
            ok == encodable(self@),
    {
        if self.entries.len() > FIELD_MAX {
            return false;
        }
        let mut i: usize = 0;
        while i < self.entries.len()
            invariant
                i <= self.entries.len(),
                forall|j: int| 0 <= j < i ==> (#[trigger] self.entries@[j]).fits(),
            decreases self.entries.len() - i,
        {
            let entry = &self.entries[i];
            let name = entry.path.as_str().as_bytes();
            if name.len() >= FIELD_MAX || entry.data.len() > FIELD_MAX || entry.dev_major != 0
                || entry.dev_minor != 0 || entry.rdev_major != 0 || entry.rdev_minor != 0 {
                assert(!self.entries@[i as int].fits());
                return false;
            }
            i += 1;
        }
        true
    }

    /// Appends the archive to `out`: the record of every entry, with inode
    /// numbers counted up from 1, and the closing record. Where a size or an
    /// inode number does not fit its field, or a device number is not zero,
    /// nothing is written.
    pub fn write_to(&self, out: &mut Vec<u8>) -> (result: Result<(), BuilderError>)
        ensures
            encodable(self@) ==> result is Ok && final(out)@ == old(out)@ + archive_bytes(self@),
            !encodable(self@) ==> (result matches Err(BuilderError::CpioGeneration(detail))
                && detail@ == "an entry cannot be written as a newc record"@),
            !encodable(self@) ==> final(out)@ == old(out)@,
    {
        if !self.is_encodable() {
            return Err(
                BuilderError::CpioGeneration(
                    String::from_str("an entry cannot be written as a newc record"),
                ),
            );
        }
        let mut i: usize = 0;
        assert(self.entries@.take(0) =~= Seq::<CpioEntry>::empty());
        assert(out@ =~= old(out)@ + records_bytes(self.entries@.take(0)));
        while i < self.entries.len()
            invariant
                i <= self.entries.len() <= FIELD_MAX,
                encodable(self.entries@),
                out@ == old(out)@ + records_bytes(self.entries@.take(i as int)),
            decreases self.entries.len() - i,
        {
            self.write_entry(out, &self.entries[i], (i + 1) as u32);
            proof {
                let next = self.entries@.take(i + 1);
                assert(next.drop_last() =~= self.entries@.take(i as int));
                assert(next.last() == self.entries@[i as int]);
                assert(out@ =~= old(out)@ + records_bytes(next));
            }
            i += 1;
        }
        assert(self.entries@.take(i as int) =~= self.entries@);
        self.write_trailer(out);
        assert(out@ =~= old(out)@ + archive_bytes(self@));
        Ok(())
    }

    /// Appends the record of `entry` under the inode number `ino`.
    fn write_entry(&self, out: &mut Vec<u8>, entry: &CpioEntry, ino: u32)
        requires
            entry.fits(),
        ensures
            final(out)@ == old(out)@ + entry.record(ino as nat),
    {
        let name = entry.path.as_str().as_bytes();
        let namesize: u64 = name.len() as u64 + 1;
        let filesize: u64 = entry.data.len() as u64;
        write_header(
            out,
            ino,
            entry.mode,
            entry.uid,
            entry.gid,
            entry.nlink,
            entry.mtime,
            filesize as u32,
            entry.dev_major,
            entry.dev_minor,
            entry.rdev_major,
            entry.rdev_minor,
            namesize as u32,
        );
        push_bytes(out, name);
        out.push(0u8);
        push_zeros(out, padding(110 + namesize));
        push_bytes(out, entry.data.as_slice());
        push_zeros(out, padding(filesize));
        assert(out@ =~= old(out)@ + entry.record(ino as nat));
    }

    /// Appends the closing record.
    fn write_trailer(&self, out: &mut Vec<u8>)
        ensures
            final(out)@ == old(out)@ + trailer_bytes(),
    {
        write_header(out, 0, 0, 0, 0, 1, 0, 0, 0, 0, 0, 0, 11);
        let name: [u8; 10] = [84u8, 82u8, 65u8, 73u8, 76u8, 69u8, 82u8, 33u8, 33u8, 33u8];
        assert(name@ =~= trailer_name());
        push_bytes(out, name.as_slice());
        out.push(0u8);
        push_zeros(out, padding(121));
        assert(zeros(0) =~= Seq::<u8>::empty());
        assert(out@ =~= old(out)@ + trailer_bytes());
    }
}

impl Default for CpioArchive {
    fn default() -> (archive: Self)
        ensures
            archive@ == Seq::<CpioEntry>::empty(),
    {
        CpioArchive::new()
    }
}

/// What the host says of one node of the tree, as far as the archive keeps it.
#[derive(Debug, Clone, Copy)]
pub struct HostMetadata {
    /// The mode, file-type bits included.
    pub mode: u32,
    pub uid: u32,
    pub gid: u32,
    /// The number of hard links.
    pub nlink: u64,
    /// The time of the last change, in seconds since the epoch.
    pub mtime: i64,
}

/// What a node holds that goes into its record.
#[derive(Debug, Clone)]
pub enum NodeContent {
    /// A regular file, with its contents.
    File(Vec<u8>),
    /// A symbolic link, with its target as stored.
    Symlink(String),
    /// A directory, or anything else: no payload.
    Other,
}

impl NodeContent {
    /// The payload of the record: the contents, the target without a
    /// terminating zero, or nothing.
    pub open spec fn payload(&self) -> Seq<u8> {
        match self {
            NodeContent::File(contents) => contents@,
            NodeContent::Symlink(target) => encode_utf8(target@),
            NodeContent::Other => Seq::empty(),
        }
    }
}

/// The low 32 bits of a number, which is what a header field keeps of it.
pub open spec fn low32(v: int) -> nat {
    (v % 0x1_0000_0000) as nat
}

/// Whether `entry` is the record of a node at `path` with this metadata and
/// content: the device numbers are zero, and the link count and the time are
/// cut to 32 bits.
pub open spec fn entry_describes(
    entry: CpioEntry,
    path: Seq<char>,
    metadata: HostMetadata,
    content: NodeContent,
) -> bool {
    &&& entry.path@ == path
    &&& entry.mode == metadata.mode
    &&& entry.uid == metadata.uid
    &&& entry.gid == metadata.gid
    &&& entry.nlink == low32(metadata.nlink as int)
    &&& entry.mtime == low32(metadata.mtime as int)
    &&& entry.data@ == content.payload()
    &&& entry.dev_major == 0
    &&& entry.dev_minor == 0
    &&& entry.rdev_major == 0
    &&& entry.rdev_minor == 0
}

/// Cuts a signed number to its low 32 bits.
fn low32_of(v: i64) -> (r: u32)
    ensures
        r == low32(v as int),
{
    let m: i64 = v % 0x1_0000_0000;
    if m < 0 {
        (m + 0x1_0000_0000) as u32
    } else {
        m as u32
    }
}

impl CpioEntry {
    /// The entry for a node of the tree at `archive_path`.
    pub fn from_host(archive_path: &str, metadata: &HostMetadata, content: NodeContent) -> (entry:
        CpioEntry)
        ensures
            entry_describes(entry, archive_path@, *metadata, content),
    {
        let data = match content {
            NodeContent::File(contents) => contents,
            NodeContent::Symlink(target) => {
                let mut bytes: Vec<u8> = Vec::new();
                push_bytes(&mut bytes, target.as_str().as_bytes());
                bytes
            },
            NodeContent::Other => Vec::new(),
        };
        CpioEntry {
            path: String::from_str(archive_path),
            mode: metadata.mode,
            uid: metadata.uid,
            gid: metadata.gid,
            nlink: (metadata.nlink % 0x1_0000_0000) as u32,
            mtime: low32_of(metadata.mtime),
            data,
            dev_major: 0,
            dev_minor: 0,
            rdev_major: 0,
            rdev_minor: 0,
        }
    }
}

impl CpioArchive {
    /// Adds the node at `archive_path` behind the entries that are there.
    pub fn add_path(&mut self, archive_path: &str, metadata: &HostMetadata, content: NodeContent)
        ensures
            final(self)@.len() == old(self)@.len() + 1,
            final(self)@.drop_last() == old(self)@,
            entry_describes(final(self)@.last(), archive_path@, *metadata, content),
    {
        let entry = CpioEntry::from_host(archive_path, metadata, content);
        self.add_entry(entry);
        assert(self@.drop_last() =~= old(self)@);
    }
}

/// `text` without the slashes at its end.
pub open spec fn without_closing_slashes(text: Seq<char>) -> Seq<char>
    decreases text.len(),
{
    if text.len() > 0 && text.last() == '/' {
        without_closing_slashes(text.drop_last())
    } else {
        text
    }
}

/// `text` without the slashes at its start.
pub open spec fn without_leading_slashes(text: Seq<char>) -> Seq<char>
    decreases text.len(),
{
    if text.len() > 0 && text[0] == '/' {
        without_leading_slashes(text.drop_first())
    } else {
        text
    }
}

/// Whether `full` is the directory `base` or lies in it: it begins with
/// `base`, and ends there or goes on with a slash.
pub open spec fn is_within(full: Seq<char>, base: Seq<char>) -> bool {
    &&& full.len() >= base.len()
    &&& full.subrange(0, base.len() as int) == base
    &&& full.len() == base.len() || full[base.len() as int] == '/'
}

/// The path in the archive of the node at `full` when the tree at `root` is
/// archived: the path from the root to the node, without a slash in front.
/// The root itself has no path in the archive, and neither has anything
/// whose path there would be empty. A path that does not lie in the root is
/// kept as it is.
pub open spec fn archive_path(root: Seq<char>, full: Seq<char>) -> Option<Seq<char>> {
    let base = without_closing_slashes(root);
    if is_within(full, base) {
        let rest = without_leading_slashes(full.subrange(base.len() as int, full.len() as int));
        if rest.len() == 0 {
            None
        } else {
            Some(rest)
        }
    } else if full.len() == 0 {
        None
    } else {
        Some(full)
    }
}

/// The path in the archive of the node at `full` when the tree at `root` is
/// archived.
pub fn archive_path_of(root: &str, full: &str) -> (path: Option<String>)
    ensures
        match path {
            Some(p) => archive_path(root@, full@) == Some(p@),
            None => archive_path(root@, full@) is None,
        },
{
    let mut base_len: usize = root.unicode_len();
    assert(root@.take(base_len as int) =~= root@);
    while base_len > 0 && root.get_char(base_len - 1) == '/'
        invariant
            base_len <= root@.len(),
            without_closing_slashes(root@.take(base_len as int)) == without_closing_slashes(root@),
        decreases base_len,
    {
        assert(root@.take(base_len as int).drop_last() =~= root@.take(base_len - 1));
        base_len -= 1;
    }
    let ghost base = root@.take(base_len as int);
    assert(base == without_closing_slashes(root@));
    let full_len = full.unicode_len();
    if full_len < base_len {
        if full_len == 0 {
            return None;
        }
        return Some(String::from_str(full));
    }
    let mut i: usize = 0;
    while i < base_len
        invariant
            i <= base_len <= full_len == full@.len(),
            base_len <= root@.len(),
            base == root@.take(base_len as int),
            base == without_closing_slashes(root@),
            full@.take(i as int) == base.take(i as int),
        decreases base_len - i,
    {
        if full.get_char(i) != root.get_char(i) {
            assert(full@.subrange(0, base_len as int)[i as int] != base[i as int]);
            return Some(String::from_str(full));
        }
        i += 1;
        assert(full@.take(i as int) =~= full@.take(i - 1).push(full@[i - 1]));
        assert(base.take(i as int) =~= base.take(i - 1).push(base[i - 1]));
    }
    assert(base.take(base_len as int) =~= base);
    assert(full@.subrange(0, base_len as int) =~= full@.take(base_len as int));
    if full_len > base_len && full.get_char(base_len) != '/' {
        return Some(String::from_str(full));
    }
    assert(is_within(full@, base));
    let ghost tail = full@.subrange(base_len as int, full_len as int);
    let mut k: usize = base_len;
    assert(full@.subrange(k as int, full_len as int) =~= tail);
    while k < full_len && full.get_char(k) == '/'
        invariant
            base_len <= k <= full_len == full@.len(),
            base == without_closing_slashes(root@),
            is_within(full@, base),
            base.len() == base_len,
            tail == full@.subrange(base_len as int, full_len as int),
            without_leading_slashes(full@.subrange(k as int, full_len as int))
                == without_leading_slashes(tail),
        decreases full_len - k,
    {
        assert(full@.subrange(k as int, full_len as int).drop_first() =~= full@.subrange(
            k + 1,
            full_len as int,
        ));
        k += 1;
    }
    if k == full_len {
        None
    } else {
        Some(String::from_str(full.substring_char(k, full_len)))
    }
}

} // verus!
