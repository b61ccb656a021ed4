//! Reading a ZIP archive that is held in memory: its entries in the order of
//! its central directory, each with its name and its decompressed bytes.
//!
//! The reading itself is the work of the `zip` crate. What it makes of given
//! bytes is not stated here but named, by [`archive_listing`]; the functions
//! of this crate say what they do with it. The archive and all of its entries
//! are held in memory at once.
//!
//! The `zip` crate is built to read entries that are stored or deflated. An
//! entry in another method, like one that is damaged, cannot be read, and an
//! archive with such an entry is reported as corrupt.

use crate::error::{fails_with, InstallError, InstallErrorView};
use vstd::prelude::*;

verus! {

/// One entry of an archive, as the installer reads it.
#[derive(Debug, Clone, PartialEq, Eq)]
pub struct ArchiveEntry {
    /// The entry's name as the archive gives it: a relative path.
    pub name: String,
    /// Whether the entry stands for a directory.
    pub is_dir: bool,
    /// The entry's decompressed bytes.
    pub data: Vec<u8>,
}

/// The mathematical value of an [`ArchiveEntry`].
pub struct ArchiveEntryView {
    pub name: Seq<char>,
    pub is_dir: bool,
    pub data: Seq<u8>,
}

impl View for ArchiveEntry {
    type V = ArchiveEntryView;

    open spec fn view(&self) -> ArchiveEntryView {
        ArchiveEntryView { name: self.name@, is_dir: self.is_dir, data: self.data@ }
    }
}

/// Makes `std::io::Cursor` known to the verifier, as a type without contents.
#[verifier::external_type_specification]
#[verifier::external_body]
#[verifier::reject_recursive_types(T)]
pub struct ExCursor<T>(std::io::Cursor<T>);

/// Makes `zip::ZipArchive` known to the verifier, as a type without contents.
/// What an archive holds is spoken of through [`held_readings`].
#[verifier::external_type_specification]
#[verifier::external_body]
#[verifier::reject_recursive_types(R)]
pub struct ExZipArchive<R>(zip::ZipArchive<R>);

/// Makes `zip::result::ZipError` known to the verifier, as a type without
/// contents.
#[verifier::external_type_specification]
#[verifier::external_body]
pub struct ExZipError(zip::result::ZipError);

/// What an entry of an archive yields when it is read: its name and its
/// decompressed bytes, or `None` where the entry cannot be read.
pub type EntryReading = Option<(Seq<char>, Seq<u8>)>;

/// What `zip::ZipArchive::new` makes of `bytes`: `None` where it refuses them,
/// else the readings of the entries in the order of the central directory.
///
/// `word_bits` is the width of `usize`. The ZIP library narrows the number of
/// entries that a ZIP64 archive claims to `usize`, so an archive that claims
/// 2^32 entries or more is read differently where `usize` has 32 bits.
pub uninterp spec fn archive_listing(bytes: Seq<u8>, word_bits: u32) -> Option<Seq<EntryReading>>;

/// The readings of the entries that an opened archive holds, in its order.
pub uninterp spec fn held_readings(archive: zip::ZipArchive<std::io::Cursor<Vec<u8>>>) -> Seq<
    EntryReading,
>;

/// A name stands for a directory when it ends in a slash or a backslash.
pub open spec fn names_directory(name: Seq<char>) -> bool {
    name.len() > 0 && (name.last() == '/' || name.last() == '\\')
}

/// The entry that a reading of name and bytes stands for.
pub open spec fn entry_of(reading: (Seq<char>, Seq<u8>)) -> ArchiveEntryView {
    ArchiveEntryView { name: reading.0, is_dir: names_directory(reading.0), data: reading.1 }
}

/// The reading at `index`: `None` also where there is no such entry.
pub open spec fn reading_at(readings: Seq<EntryReading>, index: usize) -> EntryReading {
    if index < readings.len() {
        readings[index as int]
    } else {
        None
    }
}

/// Every entry of `readings` can be read.
pub open spec fn all_readable(readings: Seq<EntryReading>) -> bool {
    forall|i: int| 0 <= i < readings.len() ==> (#[trigger] readings[i]) is Some
}

/// The entries of a listing, where the archive was accepted and every one of
/// its entries can be read.
pub open spec fn entries_of(listing: Option<Seq<EntryReading>>) -> Option<Seq<ArchiveEntryView>> {
    match listing {
        None => None,
        Some(readings) => if all_readable(readings) {
            Some(Seq::new(readings.len(), |i: int| entry_of(readings[i].unwrap())))
        } else {
            None
        },
    }
}

/// The values of `entries`, one by one.
pub open spec fn entry_views(entries: Seq<ArchiveEntry>) -> Seq<ArchiveEntryView> {
    entries.map_values(|entry: ArchiveEntry| entry@)
}

/// Calls `zip::ZipArchive::new` on a cursor over `bytes`. The outcome depends
/// on the bytes and the width of `usize` alone; it is not stated here but
/// named: success is the listing of the bytes being `Some`, and the archive
/// then holds the readings that the listing names.
///
/// The ZIP library reserves room for as many entries as the archive claims,
/// up to the length of the archive in bytes. Like every allocation in this
/// crate, that one is taken to succeed.
#[verifier::external_body]
fn open_archive(bytes: Vec<u8>) -> (opened: Result<
    zip::ZipArchive<std::io::Cursor<Vec<u8>>>,
    zip::result::ZipError,
>)
    ensures
        opened is Ok <==> archive_listing(bytes@, usize::BITS) is Some,
        opened matches Ok(archive) ==> Some(held_readings(archive)) == archive_listing(
            bytes@,
            usize::BITS,
        ),
{
    zip::ZipArchive::new(std::io::Cursor::new(bytes))
}

/// Calls `zip::ZipArchive::len`: the number of entries that the archive holds.
#[verifier::external_body]
fn entry_count(archive: &zip::ZipArchive<std::io::Cursor<Vec<u8>>>) -> (count: usize)
    ensures
        count == held_readings(*archive).len(),
{
    archive.len()
}

/// Reads the entry at `index` with `zip::ZipArchive::by_index_decrypt` and an
/// empty password, then `ZipFile::name`, `ZipFile::is_dir` and, for the bytes,
/// `Read::read_to_end` on the entry. (`by_index` is not used: it panics on an
/// entry that carries an AES field without being marked as encrypted.)
///
/// The archive holds the same readings afterwards. The result is `Some` for an
/// index below the count whose reading is `Some`: the entry then has that
/// name and those bytes, and `is_dir` is set for a name that ends in `/` or
/// `\`. An entry that the ZIP library rejects or cannot decompress, or whose
/// checksum is wrong, gives `None`; so does an encrypted entry, unless the
/// empty password opens it.
#[verifier::external_body]
fn read_entry(archive: &mut zip::ZipArchive<std::io::Cursor<Vec<u8>>>, index: usize) -> (entry:
    Option<ArchiveEntry>)
    ensures
        held_readings(*final(archive)) == held_readings(*old(archive)),
        match reading_at(held_readings(*old(archive)), index) {
            Some(reading) => entry matches Some(e) && e@ == entry_of(reading),
            None => entry is None,
        },
{
    let mut file = archive.by_index_decrypt(index, &[]).ok()?.ok()?;
    let mut data = Vec::new();
    std::io::Read::read_to_end(&mut file, &mut data).ok()?;
    Some(ArchiveEntry { name: file.name().to_string(), is_dir: file.is_dir(), data })
}

/// Reads every entry of the ZIP archive `bytes`, in the order of the
/// archive's central directory.
///
/// Fails with [`InstallError::CorruptArchive`] where the bytes are no archive
/// that the ZIP library accepts, or where one of the entries cannot be read.
pub fn read_entries(bytes: Vec<u8>) -> (listing: Result<Vec<ArchiveEntry>, InstallError>)
    ensures
        match entries_of(archive_listing(bytes@, usize::BITS)) {
            Some(entries) => listing matches Ok(read) && entry_views(read@) == entries,
            None => fails_with(listing, InstallErrorView::CorruptArchive),
        },
{
    let mut archive = match open_archive(bytes) {
        Ok(archive) => archive,
        Err(_) => {
            return Err(InstallError::CorruptArchive);
        },
    };
    let ghost readings = held_readings(archive);
    let count = entry_count(&archive);
    let mut entries: Vec<ArchiveEntry> = Vec::new();
    let mut index: usize = 0;
    while index < count
        invariant
            index <= count,
            count == readings.len(),
            archive_listing(bytes@, usize::BITS) == Some(readings),
            held_readings(archive) == readings,
            entries@.len() == index,
            forall|i: int| 0 <= i < index ==> (#[trigger] readings[i]) is Some,
            forall|i: int|
                0 <= i < index ==> (#[trigger] entries@[i])@ == entry_of(readings[i].unwrap()),
        decreases count - index,
    {
        match read_entry(&mut archive, index) {
            Some(entry) => {
                entries.push(entry);
            },
            None => {
                return Err(InstallError::CorruptArchive);
            },
        }
        index = index + 1;
    }
    Ok(entries)
}

} // verus!
