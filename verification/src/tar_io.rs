//! The trusted boundary around `flate2` and `tar`: decoding a gzip-compressed
//! tarball held in memory into plain (path, directory flag, bytes) triples.
//! The traversal guard and all decisions on the triples live in `pack` and
//! are verified.
use vstd::prelude::*;

verus! {

#[verifier::external_type_specification]
#[verifier::external_body]
pub struct ExIoError(std::io::Error);

/// What decoding a gzip-compressed tarball yields: each entry's stored path,
/// its raw tar entry-type byte (b'0' for a regular file — the old NUL marker
/// is normalized to it — b'5' for a directory, other bytes for links,
/// devices and the like), whether its stored mode carries the
/// owner-executable bit, and its bytes, in archive order; `None` when the
/// bytes are not a well-formed archive. A function of the bytes alone.
pub uninterp spec fn tgz_entries_of(b: Seq<u8>) -> Option<Seq<(Seq<char>, u8, bool, Seq<u8>)>>;

/// Relies on flate2::read::GzDecoder, tar::Archive::entries and
/// tar::EntryType::as_byte: decompresses and walks the tarball in memory;
/// names, entry-type bytes, the stored mode's owner-executable bit and bytes
/// are those stored in the archive. The tar entry stream borrows the
/// archive, so the whole walk is converted to plain values in one call.
#[verifier::external_body]
pub(crate) fn tgz_read_entries(bytes: &[u8]) -> (r: Result<
    Vec<(String, u8, bool, Vec<u8>)>,
    std::io::Error,
>)
    ensures
        r is Ok <==> tgz_entries_of(bytes@) is Some,
        r matches Ok(v) ==> Some(crate::entries::raw_models(v@)) == tgz_entries_of(bytes@),
{
    let decoder = flate2::read::GzDecoder::new(bytes);
    let mut archive = tar::Archive::new(decoder);
    let mut out: Vec<(String, u8, bool, Vec<u8>)> = Vec::new();
    for entry in archive.entries()? {
        let mut entry = entry?;
        let name = String::from_utf8_lossy(&entry.path_bytes()).into_owned();
        let kind = entry.header().entry_type().as_byte();
        let executable = entry.header().mode()? & 0o100 != 0;
        let mut data = Vec::new();
        std::io::Read::read_to_end(&mut entry, &mut data)?;
        out.push((name, kind, executable, data));
    }
    Ok(out)
}

} // verus!
