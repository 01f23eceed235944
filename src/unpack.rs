use vstd::prelude::*;
use crate::archive::{ArchiveItem, components};
use crate::error::BundleError;
use std::io::Cursor;
use std::io::Read;

verus! {

#[verifier::external_type_specification]
#[verifier::external_body]
#[verifier::reject_recursive_types(R)]
pub struct ExZipArchive<R>(zip::ZipArchive<R>);

#[verifier::external_type_specification]
#[verifier::external_body]
#[verifier::reject_recursive_types(T)]
pub struct ExCursor<T>(Cursor<T>);

#[verifier::external_type_specification]
#[verifier::external_body]
pub struct ExZipError(zip::result::ZipError);

/// What reading one entry gives: its safe path by components (`None` where
/// the name would leave the destination), whether it is a directory, and its
/// contents.
pub type EntryView = (Option<Seq<Seq<char>>>, bool, Seq<u8>);

/// The entries of an open archive, in order; `None` where reading that entry fails.
pub uninterp spec fn zip_entries(a: zip::ZipArchive<Cursor<Vec<u8>>>) -> Seq<Option<EntryView>>;

/// What the archive reader makes of the bytes: `None` where it refuses them,
/// else the entries as an open archive holds them.
pub uninterp spec fn zip_reading(bytes: Seq<u8>) -> Option<Seq<Option<EntryView>>>;

pub open spec fn item_view(item: ArchiveItem, data: Seq<u8>) -> EntryView {
    (
        match item.path {
            Some(p) => Some(components(p@)),
            None => None,
        },
        item.is_dir,
        data,
    )
}

/// Relies on `zip::ZipArchive::new`: reads the archive's directory from the
/// bytes, and fails where they are no archive.
#[verifier::external_body]
fn open_archive(bytes: Vec<u8>) -> (r: Result<zip::ZipArchive<Cursor<Vec<u8>>>, zip::result::ZipError>)
    ensures
        r is Ok <==> zip_reading(bytes@) is Some,
        r matches Ok(a) ==> zip_reading(bytes@) == Some(zip_entries(a)),
{
    zip::ZipArchive::new(Cursor::new(bytes))
}

/// Relies on `zip::ZipArchive::len`: the number of entries.
#[verifier::external_body]
fn entry_count(archive: &zip::ZipArchive<Cursor<Vec<u8>>>) -> (r: usize)
    ensures
        r == zip_entries(*archive).len(),
{
    archive.len()
}

/// Relies on `zip::ZipArchive::by_index` and, on the entry it gives,
/// `ZipFile::enclosed_name`, `ZipFile::is_dir` and its `Read` impl: the entry's
/// safe path (by components), whether it is a directory, and its contents.
/// Reading an entry leaves the archive's entries as they were.
#[verifier::external_body]
fn read_entry(archive: &mut zip::ZipArchive<Cursor<Vec<u8>>>, index: usize) -> (r: Result<
    (ArchiveItem, Vec<u8>),
    zip::result::ZipError,
>)
    requires
        index < zip_entries(*old(archive)).len(),
    ensures
        zip_entries(*final(archive)) == zip_entries(*old(archive)),
        r is Ok <==> zip_entries(*old(archive))[index as int] is Some,
        r matches Ok(p) ==> zip_entries(*old(archive))[index as int] == Some(
            item_view(p.0, p.1@),
        ),
{
    let mut file = archive.by_index(index)?;
    let path = file.enclosed_name().map(|p| {
        p.components().map(|c| c.as_os_str().to_string_lossy().into_owned()).collect()
    });
    let is_dir = file.is_dir();
    let mut data = Vec::new();
    file.read_to_end(&mut data)?;
    Ok((ArchiveItem { path, is_dir }, data))
}

/// The entries of an archive, each with its contents.
pub struct ArchiveContents {
    pub items: Vec<ArchiveItem>,
    pub data: Vec<Vec<u8>>,
}

/// The bytes are an archive whose every entry can be read.
pub open spec fn archive_readable(bytes: Seq<u8>) -> bool {
    zip_reading(bytes) matches Some(es) && forall|i: int| 0 <= i < es.len() ==> (#[trigger] es[i]) is Some
}

/// What was read matches the reader's entries, index by index.
pub open spec fn contents_match(c: ArchiveContents, es: Seq<Option<EntryView>>) -> bool {
    c.items@.len() == es.len() && c.data@.len() == es.len() && forall|i: int|
        0 <= i < es.len() ==> (#[trigger] es[i]) == Some(item_view(c.items@[i], c.data@[i]@))
}

/// Reads every entry of an archive held in memory; bytes that the archive
/// reader refuses, or an entry it cannot read, give `ArchiveCorrupt`.
pub fn read_archive(bytes: Vec<u8>) -> (r: Result<ArchiveContents, BundleError>)
    ensures
        r is Ok <==> archive_readable(bytes@),
        r matches Err(e) ==> e == BundleError::ArchiveCorrupt,
        r matches Ok(c) ==> zip_reading(bytes@) matches Some(es) && contents_match(c, es),
{
    let ghost b = bytes@;
    let mut archive = match open_archive(bytes) {
        Ok(a) => a,
        Err(_) => {
            return Err(BundleError::ArchiveCorrupt);
        },
    };
    let ghost es = zip_entries(archive);
    let n = entry_count(&archive);
    let mut items: Vec<ArchiveItem> = Vec::new();
    let mut data: Vec<Vec<u8>> = Vec::new();
    let mut i: usize = 0;
    while i < n
        invariant
            b == bytes@,
            zip_reading(b) == Some(es),
            zip_entries(archive) == es,
            n == es.len(),
            i <= n,
            items@.len() == i,
            data@.len() == i,
            forall|j: int| 0 <= j < i ==> (#[trigger] es[j]) == Some(item_view(items@[j], data@[j]@)),
        decreases n - i,
    {
        match read_entry(&mut archive, i) {
            Ok((item, contents)) => {
                items.push(item);
                data.push(contents);
            },
            Err(_) => {
                assert(!archive_readable(b)) by {
                    assert(zip_reading(b)->Some_0 == es);
                    assert(es[i as int] is None);
                }
                return Err(BundleError::ArchiveCorrupt);
            },
        }
        i = i + 1;
    }
    let c = ArchiveContents { items, data };
    assert(contents_match(c, es));
    Ok(c)
}

} // verus!
