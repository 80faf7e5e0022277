//! The trusted boundary around the `zip` crate. The packed-blob container is
//! the zip format, written and read by `zip` itself, never reimplemented
//! here: these wrappers only move plain values across the boundary, and the
//! verified packing and unpacking logic lives in `pack`.
use vstd::prelude::*;

use std::io::Cursor;

verus! {

#[verifier::external_type_specification]
#[verifier::external_body]
#[verifier::reject_recursive_types(T)]
pub struct ExCursor<T>(Cursor<T>);

#[verifier::external_type_specification]
#[verifier::external_body]
#[verifier::reject_recursive_types(R)]
pub struct ExZipArchive<R>(zip::ZipArchive<R>);

/// An in-memory zip writer. `zip::ZipWriter`'s own generic bounds cannot be
/// declared to the verifier, so the writer is held opaquely in this struct.
#[verifier::external_body]
pub struct BlobWriter {
    inner: zip::ZipWriter<Cursor<Vec<u8>>>,
}

#[verifier::external_type_specification]
#[verifier::external_body]
pub struct ExZipError(zip::result::ZipError);

/// The container bytes `zip` writes for a sequence of (path, executable bit,
/// bytes) entries, each stored uncompressed with fixed options and the fixed
/// default timestamp: a function of the entries alone within one build of
/// this library (the header's system byte follows the compile target).
pub uninterp spec fn zip_blob_of(entries: Seq<(Seq<char>, bool, Seq<u8>)>) -> Seq<u8>;

/// Holds of an entry sequence that a zip writer has accepted in full; only
/// such sequences are promised to read back verbatim.
pub uninterp spec fn zip_packable(entries: Seq<(Seq<char>, bool, Seq<u8>)>) -> bool;

/// The (path, executable bit, bytes) entries recorded in an open zip
/// archive, in archive order; directory entries keep their trailing '/' and
/// carry no bytes. The executable bit is the owner-executable bit of the
/// entry's stored unix mode, false where the archive stores none.
pub uninterp spec fn archive_entries(a: zip::ZipArchive<Cursor<Vec<u8>>>) -> Seq<
    (Seq<char>, bool, Seq<u8>),
>;

/// What opening a blob records: the entry list of its central directory, or
/// `None` when the bytes are not a zip container. A function of the bytes
/// alone.
pub uninterp spec fn zip_entries_of(b: Seq<u8>) -> Option<Seq<(Seq<char>, bool, Seq<u8>)>>;

/// Whether every entry of an open archive can be read back; holds of every
/// archive opened from bytes that a zip writer of this library produced.
pub uninterp spec fn archive_readable(a: zip::ZipArchive<Cursor<Vec<u8>>>) -> bool;

/// Whether every entry of the archive these bytes hold can be read back:
/// reading is deterministic, so this is a function of the bytes alone.
pub uninterp spec fn zip_readable_of(b: Seq<u8>) -> bool;

/// The entries written to a zip writer so far.
pub uninterp spec fn writer_entries(w: BlobWriter) -> Seq<(Seq<char>, bool, Seq<u8>)>;

/// Size bounds under which the zip writer accepts an entry, conservatively:
/// a character encodes to at most four bytes, so the stored name fits the
/// format's 16-bit name-length field, and the data stays within the plain
/// 32-bit size field that the writer enforces with large-file support off.
pub open spec fn entry_within_limits(e: (Seq<char>, bool, Seq<u8>)) -> bool {
    4 * e.0.len() < 65536 && e.2.len() <= 0xffff_ffff
}

/// Every entry of the sequence is within the writer's limits.
pub open spec fn entries_within_limits(es: Seq<(Seq<char>, bool, Seq<u8>)>) -> bool {
    forall|j: int| 0 <= j < es.len() ==> entry_within_limits(#[trigger] es[j])
}

/// No entry of the sequence already carries this name.
pub open spec fn fresh_name(es: Seq<(Seq<char>, bool, Seq<u8>)>, name: Seq<char>) -> bool {
    forall|j: int| 0 <= j < es.len() ==> (#[trigger] es[j]).0 != name
}

/// Relies on zip::ZipWriter::new: a fresh in-memory writer holds no entries.
#[verifier::external_body]
pub(crate) fn zip_writer_new() -> (w: BlobWriter)
    ensures
        writer_entries(w) == Seq::<(Seq<char>, bool, Seq<u8>)>::empty(),
{
    BlobWriter { inner: zip::ZipWriter::new(Cursor::new(Vec::new())) }
}

/// Relies on zip::ZipWriter::start_file and std::io::Write::write_all: on
/// success the named file and its bytes are appended to the archive, stored
/// uncompressed, with mode 0o755 when the entry is executable and 0o644 when
/// it is not. The only refusals are a name already written, a stored name
/// over the format's 16-bit length field, and data over the plain 32-bit
/// size field, so a fresh, within-limits entry added to within-limits
/// entries is accepted. A name ending in '/' is kept out by `requires`: the
/// writer would store it with regular-file attributes, not the directory
/// attributes `zip_add_dir` produces for the same model entry.
#[verifier::external_body]
pub(crate) fn zip_add_file(w: &mut BlobWriter, name: &str, executable: bool, data: &[u8]) -> (r:
    Result<(), zip::result::ZipError>)
    requires
        !crate::entries::is_dir_path(name@),
    ensures
        r is Ok ==> writer_entries(*final(w)) == writer_entries(*old(w)).push(
            (name@, executable, data@),
        ),
        (fresh_name(writer_entries(*old(w)), name@) && entry_within_limits(
            (name@, executable, data@),
        ) && entries_within_limits(writer_entries(*old(w)))) ==> r is Ok,
{
    let mode: u32 = if executable {
        0o755
    } else {
        0o644
    };
    let options: zip::write::FileOptions<'_, ()> = zip::write::FileOptions::default()
        .compression_method(zip::CompressionMethod::Stored)
        .unix_permissions(mode);
    w.inner.start_file(name, options)?;
    std::io::Write::write_all(&mut w.inner, data)?;
    Ok(())
}

/// Relies on zip::ZipWriter::add_directory: on success a directory entry
/// with the given name is appended, stored with the executable 0o755 mode
/// directories need; the trailing '/' the caller supplies is kept.
/// The only refusals are a duplicate or over-long name, so a fresh,
/// within-limits directory added to within-limits entries is accepted.
#[verifier::external_body]
pub(crate) fn zip_add_dir(w: &mut BlobWriter, name: &str) -> (r: Result<
    (),
    zip::result::ZipError,
>)
    requires
        crate::entries::is_dir_path(name@),
    ensures
        r is Ok ==> writer_entries(*final(w)) == writer_entries(*old(w)).push(
            (name@, true, Seq::<u8>::empty()),
        ),
        (fresh_name(writer_entries(*old(w)), name@) && 4 * name@.len() < 65536
            && entries_within_limits(writer_entries(*old(w)))) ==> r is Ok,
{
    let options: zip::write::FileOptions<'_, ()> = zip::write::FileOptions::default()
        .compression_method(zip::CompressionMethod::Stored)
        .unix_permissions(0o755);
    w.inner.add_directory(name, options)?;
    Ok(())
}

/// Relies on zip::ZipWriter::finish: the returned bytes are the container
/// for exactly the entries written, a function of those entries alone for a
/// given build of this library (the system byte in each header follows the
/// compile target). Finishing writes only to the in-memory cursor, so with
/// every entry within the writer's limits it succeeds.
#[verifier::external_body]
pub(crate) fn zip_finish(w: BlobWriter) -> (r: Result<Vec<u8>, zip::result::ZipError>)
    ensures
        r matches Ok(b) ==> b@ == zip_blob_of(writer_entries(w)) && zip_packable(
            writer_entries(w),
        ),
        entries_within_limits(writer_entries(w)) ==> r is Ok,
{
    Ok(w.inner.finish()?.into_inner())
}

/// Relies on zip::ZipArchive::new: opening succeeds exactly on zip bytes,
/// recording their entry list; bytes that a zip writer of this library
/// produced yield exactly the entries that were written, every one of them
/// readable.
#[verifier::external_body]
pub(crate) fn zip_open(blob: &[u8]) -> (r: Result<
    zip::ZipArchive<Cursor<Vec<u8>>>,
    zip::result::ZipError,
>)
    ensures
        r is Ok <==> zip_entries_of(blob@) is Some,
        r matches Ok(a) ==> Some(archive_entries(a)) == zip_entries_of(blob@),
        r matches Ok(a) ==> archive_readable(a) == zip_readable_of(blob@),
        forall|es: Seq<(Seq<char>, bool, Seq<u8>)>|
            zip_packable(es) && blob@ == #[trigger] zip_blob_of(es) ==> r is Ok
                && archive_entries(r->Ok_0) == es && archive_readable(r->Ok_0),
{
    zip::ZipArchive::new(Cursor::new(blob.to_vec()))
}

/// Relies on zip::ZipArchive::len: the number of entries in the archive.
#[verifier::external_body]
pub(crate) fn zip_archive_len(a: &zip::ZipArchive<Cursor<Vec<u8>>>) -> (n: usize)
    ensures
        n == archive_entries(*a).len(),
{
    a.len()
}

/// Relies on zip::ZipArchive::by_index, ZipFile::unix_mode and
/// std::io::Read::read_to_end: entry `i`'s stored name (directories keep
/// their trailing '/'), the owner-executable bit of its stored unix mode
/// (false where none is stored), and its decompressed bytes; reading alters
/// no entry.
#[verifier::external_body]
pub(crate) fn zip_read_entry(a: &mut zip::ZipArchive<Cursor<Vec<u8>>>, i: usize) -> (r: Result<
    (String, bool, Vec<u8>),
    zip::result::ZipError,
>)
    requires
        i < archive_entries(*old(a)).len(),
    ensures
        archive_entries(*final(a)) == archive_entries(*old(a)),
        archive_readable(*final(a)) == archive_readable(*old(a)),
        r matches Ok(e) ==> (e.0@, e.1, e.2@) == archive_entries(*old(a))[i as int],
        archive_readable(*old(a)) ==> r is Ok,
{
    let mut file = a.by_index(i)?;
    let name = file.name().to_string();
    let executable = match file.unix_mode() {
        Some(mode) => mode & 0o100 != 0,
        None => false,
    };
    let mut data = Vec::new();
    std::io::Read::read_to_end(&mut file, &mut data)?;
    Ok((name, executable, data))
}

} // verus!
