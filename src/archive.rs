//! Reading the single entry of a zip archive held in memory.
use vstd::prelude::*;
use std::io::Cursor;
use zip::result::ZipError;
use zip::ZipArchive;
use crate::error::ExtractError;
use crate::paths::{join, join_of, last_index_of, lemma_last_index_suffix, parent_dir, parent_of};

verus! {

#[verifier::external_type_specification]
#[verifier::external_body]
#[verifier::reject_recursive_types(R)]
pub struct ExZipArchive<R>(ZipArchive<R>);

#[verifier::external_type_specification]
#[verifier::external_body]
#[verifier::reject_recursive_types(T)]
pub struct ExCursor<T>(Cursor<T>);

#[verifier::external_type_specification]
#[verifier::external_body]
pub struct ExZipError(ZipError);

/// An archive read from bytes in memory.
pub type MemArchive = ZipArchive<Cursor<Vec<u8>>>;

/// The entry names, in index order, that zip's central-directory reader finds
/// in `bytes`; `None` when it rejects them.
pub uninterp spec fn zip_directory(bytes: Seq<u8>) -> Option<Seq<Seq<char>>>;

/// The entry names of an opened archive, in index order.
pub uninterp spec fn entry_names(a: MemArchive) -> Seq<Seq<char>>;

/// What reading each entry of the zip archive `bytes` yields, in index
/// order: `None` when the entry cannot be opened, `Some(None)` when its bytes
/// cannot be read out, `Some(Some(d))` when it decompresses to `d`.
pub uninterp spec fn zip_contents(bytes: Seq<u8>) -> Seq<Option<Option<Seq<u8>>>>;

/// What reading each entry of an opened archive yields, as `zip_contents`.
pub uninterp spec fn entry_contents(a: MemArchive) -> Seq<Option<Option<Seq<u8>>>>;

/// Relies on zip::ZipArchive::new: it reads the central directory of the
/// bytes, failing when they are no zip container, and keeps one entry per
/// name, ordered by where each name first appears in the directory.
#[verifier::external_body]
fn open_archive(bytes: Vec<u8>) -> (r: Result<MemArchive, ZipError>)
    ensures
        match r {
            Ok(a) => zip_directory(bytes@) == Some(entry_names(a)) && entry_contents(a)
                == zip_contents(bytes@),
            Err(_) => zip_directory(bytes@) is None,
        },
{
    ZipArchive::new(Cursor::new(bytes))
}

/// Relies on zip::ZipArchive::len: the number of entries.
#[verifier::external_body]
fn entry_count(a: &MemArchive) -> (r: usize)
    ensures
        r == entry_names(*a).len(),
{
    a.len()
}

/// Relies on zip::ZipArchive::by_index: the entry at `index`, here read out
/// as its stored name and its decompressed bytes (`None` when decompressing
/// fails). Reading moves only the underlying cursor; the entries stay as
/// they were.
#[verifier::external_body]
fn read_entry(a: &mut MemArchive, index: usize) -> (r: Result<(String, Option<Vec<u8>>), ZipError>)
    ensures
        entry_names(*final(a)) == entry_names(*old(a)),
        entry_contents(*final(a)) == entry_contents(*old(a)),
        r matches Ok((name, _)) ==> index < entry_names(*old(a)).len() && name@
            == entry_names(*old(a))[index as int],
        index < entry_names(*old(a)).len() ==> match entry_contents(*old(a))[index as int] {
            None => r is Err,
            Some(None) => r matches Ok((_, None)),
            Some(Some(d)) => r matches Ok((_, Some(v))) && v@ == d,
        },
{
    let mut file = a.by_index(index)?;
    let name = file.name().to_string();
    let mut data: Vec<u8> = Vec::new();
    let copied = std::io::Read::read_to_end(&mut file, &mut data);
    Ok((name, copied.ok().map(|_| data)))
}

/// The first entry of an archive: its stored name and its bytes.
pub struct ArchiveEntry {
    pub name: String,
    pub data: Vec<u8>,
}

/// Reads entry 0 of the zip archive `bytes`; later entries are ignored.
/// Bytes that are no zip container give `FormatError`, one without entries
/// gives `EmptyArchiveError`, an entry 0 that cannot be opened gives
/// `FormatError`, and one whose bytes cannot be copied out gives
/// `WriteError`.
pub fn extract_data(bytes: Vec<u8>) -> (r: Result<ArchiveEntry, ExtractError>)
    ensures
        zip_directory(bytes@) is None ==> r == Err::<ArchiveEntry, ExtractError>(
            ExtractError::FormatError,
        ),
        zip_directory(bytes@) == Some(Seq::<Seq<char>>::empty()) ==> r == Err::<
            ArchiveEntry,
            ExtractError,
        >(ExtractError::EmptyArchiveError),
        zip_directory(bytes@) matches Some(names) && names.len() > 0 ==> match zip_contents(
            bytes@,
        )[0] {
            Some(Some(d)) => r matches Ok(e) && e.name@ == zip_directory(bytes@)->Some_0[0]
                && e.data@ == d,
            Some(None) => r == Err::<ArchiveEntry, ExtractError>(ExtractError::WriteError),
            None => r == Err::<ArchiveEntry, ExtractError>(ExtractError::FormatError),
        },
{
    let mut archive = match open_archive(bytes) {
        Ok(a) => a,
        Err(_) => return Err(ExtractError::FormatError),
    };
    if entry_count(&archive) == 0 {
        proof {
            assert(entry_names(archive) =~= Seq::<Seq<char>>::empty());
        }
        return Err(ExtractError::EmptyArchiveError);
    }
    match read_entry(&mut archive, 0) {
        Ok((name, Some(data))) => Ok(ArchiveEntry { name, data }),
        Ok((_, None)) => Err(ExtractError::WriteError),
        Err(_) => Err(ExtractError::FormatError),
    }
}

/// Where an entry named `entry_name` is written: under `destination`, with
/// any directories the name holds.
pub fn extraction_target(destination: &str, entry_name: &str) -> (r: String)
    ensures
        r@ == join_of(destination@, entry_name@),
{
    join(destination, entry_name)
}

/// The directory that must exist before the entry is written.
pub fn extraction_dir(destination: &str, entry_name: &str) -> (r: String)
    ensures
        r@ == parent_of(join_of(destination@, entry_name@)),
{
    let target = join(destination, entry_name);
    parent_dir(target.as_str())
}

/// An entry stored as `dir/file` is written inside the directory `dir` under
/// the destination, which must exist first: the directory part of its target
/// is `dir` placed under the destination.
pub proof fn lemma_nested_entry_dir(destination: Seq<char>, dir: Seq<char>, file: Seq<char>)
    requires
        dir.len() > 0,
        dir[0] != '/',
        forall|i: int| 0 <= i < file.len() ==> file[i] != '/',
    ensures
        parent_of(join_of(destination, dir + seq!['/'] + file)) == join_of(destination, dir),
{
    let name = dir + seq!['/'] + file;
    let base = join_of(destination, dir);
    let head = base.push('/');
    assert(name[0] == dir[0]);
    assert(join_of(destination, name) =~= head + file);
    lemma_last_index_suffix(head, file, '/');
    assert(head.drop_last() =~= base);
    assert(last_index_of(head, '/') == base.len());
    assert((head + file).subrange(0, base.len() as int) =~= base);
}

} // verus!
