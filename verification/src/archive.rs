//! Reading the version descriptor out of an installer archive.
//!
//! An installer is a zip archive. Of its entries only one is read: the
//! version descriptor, a text. The archive format is the `zip` crate's
//! business; what it finds is named here and not described.

use crate::error::{outcome_view, ManifestError, ManifestErrorView};
use vstd::prelude::*;

verus! {

/// `zip::ZipArchive`: an open archive over a reader.
#[verifier::external_type_specification]
#[verifier::external_body]
#[verifier::reject_recursive_types(R)]
pub struct ExZipArchive<R>(zip::ZipArchive<R>);

/// `std::io::Cursor`: a reader over bytes in memory.
#[verifier::external_type_specification]
#[verifier::external_body]
#[verifier::reject_recursive_types(T)]
pub struct ExCursor<T>(std::io::Cursor<T>);

/// `zip::result::ZipError`: why an archive or an entry could not be read.
#[verifier::external_type_specification]
#[verifier::external_body]
pub struct ExZipError(zip::result::ZipError);

/// The entries of an open archive that can be read as text, by name.
pub uninterp spec fn archive_texts(archive: zip::ZipArchive<std::io::Cursor<Vec<u8>>>) -> Map<
    Seq<char>,
    Seq<char>,
>;

/// The readable text entries of the archive that `bytes` encode, if they
/// encode one.
pub uninterp spec fn archive_of(bytes: Seq<u8>) -> Option<Map<Seq<char>, Seq<char>>>;

/// `zip::ZipArchive::new` on a cursor over `bytes`: reads the archive's
/// directory. It succeeds exactly when the bytes encode an archive, and the
/// archive it gives holds that archive's entries.
#[verifier::external_body]
fn open_archive(bytes: Vec<u8>) -> (opened: Result<
    zip::ZipArchive<std::io::Cursor<Vec<u8>>>,
    zip::result::ZipError,
>)
    ensures
        match opened {
            Ok(archive) => archive_of(bytes@) == Some(archive_texts(archive)),
            Err(_) => archive_of(bytes@) is None,
        },
{
    zip::ZipArchive::new(std::io::Cursor::new(bytes))
}

/// `zip::ZipArchive::by_name`, read to its end as text: the text of the
/// entry `name`. It succeeds exactly when the archive has such an entry and
/// it can be read as text. The archive's entries stay what they were.
#[verifier::external_body]
fn read_entry(archive: &mut zip::ZipArchive<std::io::Cursor<Vec<u8>>>, name: &str) -> (read:
    Result<String, zip::result::ZipError>)
    ensures
        archive_texts(*final(archive)) == archive_texts(*old(archive)),
        match read {
            Ok(text) => archive_texts(*old(archive)).contains_key(name@) && archive_texts(
                *old(archive),
            )[name@] == text@,
            Err(_) => !archive_texts(*old(archive)).contains_key(name@),
        },
{
    let mut text = String::new();
    std::io::Read::read_to_string(&mut archive.by_name(name)?, &mut text)?;
    Ok(text)
}

/// The name of the entry that holds the version descriptor.
pub open spec fn descriptor_entry() -> Seq<char> {
    "version.json"@
}

/// What reading the descriptor gives, from what reading the entry gave: the
/// entry's text, or that the installer is malformed.
pub open spec fn descriptor_outcome(read: Option<Seq<char>>) -> Result<
    Seq<char>,
    ManifestErrorView,
> {
    match read {
        Some(text) => Ok(text),
        None => Err(ManifestErrorView::MalformedResponse(descriptor_entry())),
    }
}

/// The descriptor's text in an archive with the text entries `texts`, if the
/// bytes were an archive at all.
pub open spec fn descriptor_in(parsed: Option<Map<Seq<char>, Seq<char>>>) -> Option<Seq<char>> {
    match parsed {
        Some(texts) => if texts.contains_key(descriptor_entry()) {
            Some(texts[descriptor_entry()])
        } else {
            None
        },
        None => None,
    }
}

/// The view of a text that was read, if one was.
pub open spec fn read_view(read: Result<String, zip::result::ZipError>) -> Option<Seq<char>> {
    match read {
        Ok(text) => Some(text@),
        Err(_) => None,
    }
}

/// Turns what reading the descriptor's entry gave into the descriptor's
/// text, or into the error that the installer is malformed.
pub fn descriptor_from(read: Result<String, zip::result::ZipError>) -> (outcome: Result<
    String,
    ManifestError,
>)
    ensures
        outcome_view(outcome) == descriptor_outcome(read_view(read)),
{
    match read {
        Ok(text) => Ok(text),
        Err(_) => Err(ManifestError::MalformedResponse("version.json".to_owned())),
    }
}

/// Reads the version descriptor's text out of an installer archive.
/// It fails, with `MalformedResponse`, where the bytes are no archive, where
/// the archive has no such entry, and where the entry is no text.
pub fn get_loader_install_profile(installer: Vec<u8>) -> (outcome: Result<String, ManifestError>)
    ensures
        outcome_view(outcome) == descriptor_outcome(descriptor_in(archive_of(installer@))),
{
    match open_archive(installer) {
        Ok(archive) => {
            let mut archive = archive;
            let read = read_entry(&mut archive, "version.json");
            descriptor_from(read)
        },
        Err(_) => Err(ManifestError::MalformedResponse("version.json".to_owned())),
    }
}

} // verus!
