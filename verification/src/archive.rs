//! The extractor: decodes a downloaded release archive held in memory, walks
//! its entries, and returns the bytes of the entry named like the expected
//! binary. Decoding is done by the `flate2`, `tar` and `zip` crates behind two
//! trusted wrappers; everything from the entry listing on is verified.

use vstd::prelude::*;

use crate::InstallError;
use crate::text::{extension_of, file_name_of, spec_extension, spec_file_name, str_eq};

verus! {

/// The two archive formats a release asset can come in.
#[derive(Clone, Copy, PartialEq, Eq, Structural, Debug)]
pub enum ArchiveKind {
    /// A gzip-compressed tar archive (a `.tar.gz` asset).
    TarGz,
    /// A zip archive (a `.zip` asset).
    Zip,
}

/// One entry of a decoded archive: its name as recorded in the archive, and
/// its uncompressed contents.
#[derive(Clone, Debug)]
pub struct ArchiveEntry {
    pub name: String,
    pub data: Vec<u8>,
}

/// The archive format named by an asset's file extension.
pub open spec fn spec_archive_kind(name: Seq<char>) -> Result<ArchiveKind, InstallError> {
    match spec_extension(name) {
        Some(ext) => if ext == "gz"@ {
            Ok(ArchiveKind::TarGz)
        } else if ext == "zip"@ {
            Ok(ArchiveKind::Zip)
        } else {
            Err(InstallError::UnsupportedArchiveFormat)
        },
        None => Err(InstallError::UnsupportedArchiveFormat),
    }
}

/// Reads the archive format off an asset name's extension: `gz` names a
/// gzip-compressed tar archive, `zip` a zip archive, and anything else fails.
pub fn archive_kind_of(name: &str) -> (r: Result<ArchiveKind, InstallError>)
    ensures
        r == spec_archive_kind(name@),
{
    match extension_of(name) {
        Some(ext) => if str_eq(ext, "gz") {
            Ok(ArchiveKind::TarGz)
        } else if str_eq(ext, "zip") {
            Ok(ArchiveKind::Zip)
        } else {
            Err(InstallError::UnsupportedArchiveFormat)
        },
        None => Err(InstallError::UnsupportedArchiveFormat),
    }
}

/// The name and contents of each archive entry, as plain values.
pub open spec fn entry_listing(es: Seq<ArchiveEntry>) -> Seq<(Seq<char>, Seq<u8>)> {
    es.map(|i: int, e: ArchiveEntry| (e.name@, e.data@))
}

/// The entries of a gzip-compressed tar archive: their names and contents are
/// a function of the archive bytes alone, or nothing when the bytes do not
/// decode as such an archive.
pub uninterp spec fn tar_gz_listing(content: Seq<u8>) -> Option<Seq<(Seq<char>, Seq<u8>)>>;

/// The entries of a zip archive: their names and contents are a function of
/// the archive bytes alone, or nothing when the bytes do not decode as such an
/// archive.
pub uninterp spec fn zip_listing(content: Seq<u8>) -> Option<Seq<(Seq<char>, Seq<u8>)>>;

/// Relies on `flate2::read::GzDecoder` and `tar::Archive`: the entries read
/// out of a gzip-compressed tar archive held in memory depend on the archive
/// bytes alone. Entry names are the paths recorded in the archive; a listing
/// with an undecodable or non-Unicode entry fails as a whole.
#[verifier::external_body]
fn list_tar_gz(content: &[u8]) -> (r: Option<Vec<ArchiveEntry>>)
    ensures
        match r {
            Some(es) => tar_gz_listing(content@) == Some(entry_listing(es@)),
            None => tar_gz_listing(content@) is None,
        },
{
    let mut archive = tar::Archive::new(flate2::read::GzDecoder::new(content));
    let mut out: Vec<ArchiveEntry> = Vec::new();
    for entry in archive.entries().ok()? {
        let mut entry = entry.ok()?;
        let name = { entry.path().ok()?.to_str()?.to_string() };
        let mut data: Vec<u8> = Vec::new();
        std::io::Read::read_to_end(&mut entry, &mut data).ok()?;
        out.push(ArchiveEntry { name, data });
    }
    Some(out)
}

/// Relies on `zip::ZipArchive`: the entries read out of a zip archive held in
/// memory depend on the archive bytes alone. Entry names are the full names
/// recorded in the archive; a listing with an undecodable entry fails as a
/// whole.
#[verifier::external_body]
fn list_zip(content: &[u8]) -> (r: Option<Vec<ArchiveEntry>>)
    ensures
        match r {
            Some(es) => zip_listing(content@) == Some(entry_listing(es@)),
            None => zip_listing(content@) is None,
        },
{
    let mut archive = zip::ZipArchive::new(std::io::Cursor::new(content)).ok()?;
    let mut out: Vec<ArchiveEntry> = Vec::new();
    for i in 0..archive.len() {
        let mut file = archive.by_index(i).ok()?;
        let name = file.name().to_string();
        let mut data: Vec<u8> = Vec::new();
        std::io::Read::read_to_end(&mut file, &mut data).ok()?;
        out.push(ArchiveEntry { name, data });
    }
    Some(out)
}

/// The entry listing of `content` decoded as `kind`.
pub open spec fn spec_listing_of(content: Seq<u8>, kind: ArchiveKind) -> Option<
    Seq<(Seq<char>, Seq<u8>)>,
> {
    match kind {
        ArchiveKind::TarGz => tar_gz_listing(content),
        ArchiveKind::Zip => zip_listing(content),
    }
}

/// Whether entries of this archive kind are matched by the final component of
/// their recorded path. Tar entries carry full paths, so the binary is found
/// by file name; zip entries are matched by their full recorded name.
pub open spec fn matches_by_file_name(kind: ArchiveKind) -> bool {
    kind is TarGz
}

/// Whether an entry so named is the one looked for.
pub open spec fn spec_entry_matches(
    entry_name: Seq<char>,
    name: Seq<char>,
    by_file_name: bool,
) -> bool {
    if by_file_name {
        spec_file_name(entry_name) == name
    } else {
        entry_name == name
    }
}

/// The contents of the first entry matching `name`, if any entry does.
pub open spec fn spec_find_entry(
    es: Seq<(Seq<char>, Seq<u8>)>,
    name: Seq<char>,
    by_file_name: bool,
) -> Option<Seq<u8>>
    decreases es.len(),
{
    if es.len() == 0 {
        None
    } else if spec_entry_matches(es[0].0, name, by_file_name) {
        Some(es[0].1)
    } else {
        spec_find_entry(es.drop_first(), name, by_file_name)
    }
}

/// A prefix free of matches does not change which entry is found.
proof fn lemma_find_entry_ignores_prefix(
    es: Seq<(Seq<char>, Seq<u8>)>,
    name: Seq<char>,
    by_file_name: bool,
    i: int,
)
    requires
        0 <= i <= es.len(),
        forall|k: int| 0 <= k < i ==> !spec_entry_matches(es[k].0, name, by_file_name),
    ensures
        spec_find_entry(es, name, by_file_name) == spec_find_entry(es.skip(i), name, by_file_name),
    decreases i,
{
    if i == 0 {
        assert(es.skip(0) =~= es);
    } else {
        assert(!spec_entry_matches(es[0].0, name, by_file_name));
        lemma_find_entry_ignores_prefix(es.drop_first(), name, by_file_name, i - 1);
        assert(es.drop_first().skip(i - 1) =~= es.skip(i));
    }
}

/// Law: extraction is byte-identical. When `i` indexes the first entry whose
/// name matches, the bytes found are exactly that entry's contents.
pub proof fn lemma_extract_byte_identical(
    es: Seq<(Seq<char>, Seq<u8>)>,
    name: Seq<char>,
    by_file_name: bool,
    i: int,
)
    requires
        0 <= i < es.len(),
        spec_entry_matches(es[i].0, name, by_file_name),
        forall|k: int| 0 <= k < i ==> !spec_entry_matches(es[k].0, name, by_file_name),
    ensures
        spec_find_entry(es, name, by_file_name) == Some(es[i].1),
{
    lemma_find_entry_ignores_prefix(es, name, by_file_name, i);
    assert(es.skip(i)[0] == es[i]);
}

/// Law: when no entry of the listing matches, nothing is found, so extraction
/// fails before any bytes could be handed on to be written.
pub proof fn lemma_extract_missing_entry_fails(
    es: Seq<(Seq<char>, Seq<u8>)>,
    name: Seq<char>,
    by_file_name: bool,
)
    requires
        forall|k: int| 0 <= k < es.len() ==> !spec_entry_matches(es[k].0, name, by_file_name),
    ensures
        spec_find_entry(es, name, by_file_name) is None,
{
    lemma_find_entry_ignores_prefix(es, name, by_file_name, es.len() as int);
}

/// Tests whether one decoded entry is the one looked for.
fn entry_matches(e: &ArchiveEntry, name: &str, by_file_name: bool) -> (r: bool)
    ensures
        r == spec_entry_matches(e.name@, name@, by_file_name),
{
    if by_file_name {
        str_eq(file_name_of(e.name.as_str()), name)
    } else {
        str_eq(e.name.as_str(), name)
    }
}

/// Walks the decoded entries in order and returns the contents of the first
/// one matching `name`, or fails when none does.
pub fn find_entry(entries: &Vec<ArchiveEntry>, name: &str, by_file_name: bool) -> (r: Result<
    Vec<u8>,
    InstallError,
>)
    ensures
        match r {
            Ok(d) => spec_find_entry(entry_listing(entries@), name@, by_file_name) == Some(d@),
            Err(e) => spec_find_entry(entry_listing(entries@), name@, by_file_name) is None && e
                == InstallError::BinaryNotFoundInArchive,
        },
{
    let ghost listing = entry_listing(entries@);
    let n = entries.len();
    let mut i: usize = 0;
    while i < n
        invariant
            n == entries.len(),
            i <= n,
            listing == entry_listing(entries@),
            forall|k: int| 0 <= k < i ==> !spec_entry_matches(listing[k].0, name@, by_file_name),
        decreases n - i,
    {
        let e = &entries[i];
        if entry_matches(e, name, by_file_name) {
            let d = e.data.clone();
            proof {
                assert(d@ =~= e.data@);
                lemma_find_entry_ignores_prefix(listing, name@, by_file_name, i as int);
                assert(listing.skip(i as int)[0] == listing[i as int]);
            }
            return Ok(d);
        }
        i = i + 1;
    }
    proof {
        lemma_find_entry_ignores_prefix(listing, name@, by_file_name, n as int);
    }
    Err(InstallError::BinaryNotFoundInArchive)
}

/// What extracting the named binary from archive bytes yields: a parse failure
/// when the bytes do not decode, the first matching entry's contents when one
/// exists, and a missing-binary failure otherwise.
pub open spec fn spec_extract(content: Seq<u8>, kind: ArchiveKind, name: Seq<char>) -> Result<
    Seq<u8>,
    InstallError,
> {
    match spec_listing_of(content, kind) {
        None => Err(InstallError::ArchiveParse),
        Some(es) => match spec_find_entry(es, name, matches_by_file_name(kind)) {
            Some(d) => Ok(d),
            None => Err(InstallError::BinaryNotFoundInArchive),
        },
    }
}

/// Decodes the downloaded archive bytes as `kind` and returns the contents of
/// the first entry named like `binary_name`.
pub fn extract_binary(content: &[u8], kind: ArchiveKind, binary_name: &str) -> (r: Result<
    Vec<u8>,
    InstallError,
>)
    ensures
        match r {
            Ok(d) => spec_extract(content@, kind, binary_name@) == Ok::<Seq<u8>, InstallError>(d@),
            Err(e) => spec_extract(content@, kind, binary_name@) == Err::<Seq<u8>, InstallError>(e),
        },
{
    let listed = match kind {
        ArchiveKind::TarGz => list_tar_gz(content),
        ArchiveKind::Zip => list_zip(content),
    };
    let by_file_name = match kind {
        ArchiveKind::TarGz => true,
        ArchiveKind::Zip => false,
    };
    match listed {
        None => Err(InstallError::ArchiveParse),
        Some(entries) => find_entry(&entries, binary_name, by_file_name),
    }
}

} // verus!
