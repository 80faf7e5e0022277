//! Packing a directory snapshot into one immutable blob and reading archives
//! back into snapshots. Every entry read from an archive — downloaded or
//! embedded — passes the path-traversal guard before it is handed out, so
//! nothing a caller materializes can escape its destination directory.
use vstd::prelude::*;

use crate::entries::{
    check_dir_path, check_path_safe, entries_safe, entry_models, is_dir_path, raw_models,
    safe_path, valid_tree, PackEntry,
};
use crate::error::ProvisionError;
use crate::tar_io::{tgz_entries_of, tgz_read_entries};
use crate::text::str_eq;
use crate::entries::distinct_paths;
use crate::zip_io::{
    archive_entries, archive_readable, entries_within_limits, entry_within_limits, fresh_name,
    zip_add_dir, zip_add_file, zip_archive_len, zip_blob_of, zip_entries_of, zip_finish, zip_open,
    zip_packable, zip_read_entry, zip_readable_of, zip_writer_new,
};

verus! {

/// A blob paired with the snapshot it must yield again: the bytes are exactly
/// the packed form of `ms`, and `ms` is a valid snapshot. `unpack` promises
/// to reproduce `ms` from any such blob.
pub open spec fn unpack_must_yield(blob: Seq<u8>, ms: Seq<(Seq<char>, bool, Seq<u8>)>) -> bool {
    &&& zip_packable(ms)
    &&& blob == zip_blob_of(ms)
    &&& valid_tree(ms)
}

proof fn lemma_prefix_within_limits(ms: Seq<(Seq<char>, bool, Seq<u8>)>, k: int)
    requires
        0 <= k <= ms.len(),
        entries_within_limits(ms),
    ensures
        entries_within_limits(ms.take(k)),
{
    assert forall|j: int|
        0 <= j < ms.take(k).len() implies entry_within_limits(#[trigger] ms.take(k)[j]) by {
        assert(ms.take(k)[j] == ms[j]);
    }
}

proof fn lemma_prefix_fresh(ms: Seq<(Seq<char>, bool, Seq<u8>)>, k: int)
    requires
        0 <= k < ms.len(),
        distinct_paths(ms),
    ensures
        fresh_name(ms.take(k), ms[k].0),
{
    assert forall|j: int|
        0 <= j < ms.take(k).len() implies (#[trigger] ms.take(k)[j]).0 != ms[k].0 by {
        assert(ms.take(k)[j] == ms[j]);
    }
}

/// Serializes a directory snapshot into one uncompressed zip blob. Entries
/// are written in the order given, so packing the same snapshot twice yields
/// the same bytes. An unsafe path is rejected as `PathTraversal`; a duplicate
/// path or a directory entry carrying bytes is rejected as `Pack`.
pub fn zip_dir(entries: &Vec<PackEntry>) -> (r: Result<Vec<u8>, ProvisionError>)
    ensures
        r matches Ok(b) ==> b@ == zip_blob_of(entry_models(entries@)) && zip_packable(
            entry_models(entries@),
        ) && valid_tree(entry_models(entries@)),
        !valid_tree(entry_models(entries@)) ==> r is Err,
        (valid_tree(entry_models(entries@)) && entries_within_limits(entry_models(entries@)))
            ==> r is Ok,
        r matches Err(e) ==> e matches ProvisionError::PathTraversal { name } ==> !safe_path(
            name@,
        ),
{
    let ghost ms = entry_models(entries@);
    let n = entries.len();
    let mut i: usize = 0;
    while i < n
        invariant
            ms == entry_models(entries@),
            n == entries@.len(),
            i <= n,
            forall|j: int|
                0 <= j < i ==> safe_path((#[trigger] ms[j]).0) && (is_dir_path(ms[j].0) ==> (
                ms[j].2.len() == 0 && ms[j].1)),
            forall|x: int, y: int|
                0 <= x < y < i ==> (#[trigger] ms[x]).0 != (#[trigger] ms[y]).0,
        decreases n - i,
    {
        let e = &entries[i];
        if !check_path_safe(e.path.as_str()) {
            proof {
                assert(ms[i as int] == entries@[i as int]@);
            }
            return Err(ProvisionError::PathTraversal { name: String::from_str(e.path.as_str()) });
        }
        if check_dir_path(e.path.as_str()) && (e.data.len() > 0 || !e.executable) {
            proof {
                assert(ms[i as int] == entries@[i as int]@);
            }
            return Err(ProvisionError::Pack);
        }
        let mut j: usize = 0;
        while j < i
            invariant
                ms == entry_models(entries@),
                n == entries@.len(),
                j <= i < n,
                forall|x: int| 0 <= x < j ==> (#[trigger] ms[x]).0 != ms[i as int].0,
            decreases i - j,
        {
            if str_eq(entries[j].path.as_str(), entries[i].path.as_str()) {
                proof {
                    assert(ms[j as int] == entries@[j as int]@);
                    assert(ms[i as int] == entries@[i as int]@);
                }
                return Err(ProvisionError::Pack);
            }
            proof {
                assert(ms[j as int] == entries@[j as int]@);
                assert(ms[i as int] == entries@[i as int]@);
                assert(ms[j as int].0 == entries@[j as int].path@);
                assert(ms[i as int].0 == entries@[i as int].path@);
                assert(ms[j as int].0 != ms[i as int].0);
            }
            j += 1;
        }
        i += 1;
    }
    assert(valid_tree(ms));
    let mut w = zip_writer_new();
    let mut k: usize = 0;
    while k < n
        invariant
            ms == entry_models(entries@),
            n == entries@.len(),
            k <= n,
            valid_tree(ms),
            crate::zip_io::writer_entries(w) == ms.take(k as int),
        decreases n - k,
    {
        let e = &entries[k];
        proof {
            assert(ms[k as int] == entries@[k as int]@);
            if entries_within_limits(ms) {
                assert(entry_within_limits(ms[k as int]));
                lemma_prefix_within_limits(ms, k as int);
                lemma_prefix_fresh(ms, k as int);
            }
        }
        if check_dir_path(e.path.as_str()) {
            match zip_add_dir(&mut w, e.path.as_str()) {
                Ok(()) => {},
                Err(_) => {
                    return Err(ProvisionError::Pack);
                },
            }
            proof {
                assert(ms[k as int].2 =~= Seq::<u8>::empty());
                assert(ms[k as int].1);
                assert(ms.take(k as int).push(ms[k as int]) =~= ms.take(k + 1 as int));
            }
        } else {
            match zip_add_file(&mut w, e.path.as_str(), e.executable, e.data.as_slice()) {
                Ok(()) => {},
                Err(_) => {
                    return Err(ProvisionError::Pack);
                },
            }
            proof {
                assert(ms.take(k as int).push(ms[k as int]) =~= ms.take(k + 1 as int));
            }
        }
        k += 1;
    }
    proof {
        assert(ms.take(n as int) =~= ms);
    }
    match zip_finish(w) {
        Ok(blob) => Ok(blob),
        Err(_) => Err(ProvisionError::Pack),
    }
}

/// Reads a zip archive held in memory back into a snapshot, rejecting any
/// entry whose path fails the traversal guard. On a blob this library packed
/// it yields exactly the packed snapshot.
pub fn extract_zip(archive: &[u8]) -> (r: Result<Vec<PackEntry>, ProvisionError>)
    ensures
        r matches Ok(es) ==> entries_safe(entry_models(es@)),
        r matches Ok(es) ==> Some(entry_models(es@)) == zip_entries_of(archive@),
        zip_entries_of(archive@) is None ==> r matches Err(ProvisionError::Extraction),
        (zip_entries_of(archive@) matches Some(es) && zip_readable_of(archive@) && entries_safe(
            es,
        )) ==> r is Ok,
        (zip_entries_of(archive@) matches Some(es) && zip_readable_of(archive@) && !entries_safe(
            es,
        )) ==> (r matches Err(ProvisionError::PathTraversal { name }) && !safe_path(name@)),
        forall|ms: Seq<(Seq<char>, bool, Seq<u8>)>|
            #[trigger] unpack_must_yield(archive@, ms) ==> (r matches Ok(es)
                && entry_models(es@) == ms),
        r matches Err(e) ==> e is Extraction || e is PathTraversal,
        r matches Err(e) ==> e matches ProvisionError::PathTraversal { name } ==> !safe_path(
            name@,
        ),
{
    let mut a = match zip_open(archive) {
        Ok(a) => a,
        Err(_) => {
            return Err(ProvisionError::Extraction);
        },
    };
    let n = zip_archive_len(&a);
    let ghost es0 = archive_entries(a);
    let ghost rd0 = archive_readable(a);
    let mut out: Vec<PackEntry> = Vec::new();
    let mut i: usize = 0;
    while i < n
        invariant
            n == es0.len(),
            archive_entries(a) == es0,
            archive_readable(a) == rd0,
            rd0 == zip_readable_of(archive@),
            Some(es0) == zip_entries_of(archive@),
            forall|ms: Seq<(Seq<char>, bool, Seq<u8>)>|
                #[trigger] unpack_must_yield(archive@, ms) ==> es0 == ms && rd0,
            i <= n,
            out@.len() == i,
            entry_models(out@) == es0.take(i as int),
            entries_safe(entry_models(out@)),
        decreases n - i,
    {
        let entry = match zip_read_entry(&mut a, i) {
            Ok(e) => e,
            Err(_) => {
                return Err(ProvisionError::Extraction);
            },
        };
        let (name, executable, data) = entry;
        if !check_path_safe(name.as_str()) {
            proof {
                assert(es0[i as int].0 == name@);
            }
            return Err(ProvisionError::PathTraversal { name });
        }
        out.push(PackEntry { path: name, executable, data });
        proof {
            assert(entry_models(out@) =~= es0.take(i + 1 as int));
        }
        i += 1;
    }
    proof {
        assert(es0.take(n as int) =~= es0);
        assert(entries_safe(es0));
    }
    Ok(out)
}

/// The tar entry-type byte of a regular file (the old NUL marker reads back
/// as this byte too).
pub const TAR_TYPE_REGULAR: u8 = 48;

/// The tar entry-type byte of a directory.
pub const TAR_TYPE_DIRECTORY: u8 = 53;

/// How a raw tarball entry is reshaped into a snapshot entry: a directory
/// whose stored name lacks the trailing '/' gains it; the executable bit and
/// the bytes are kept verbatim.
pub open spec fn norm_raw_entry(t: (Seq<char>, u8, bool, Seq<u8>)) -> (Seq<char>, bool, Seq<u8>) {
    if t.1 == TAR_TYPE_DIRECTORY && !is_dir_path(t.0) {
        (t.0 + "/"@, t.2, t.3)
    } else {
        (t.0, t.2, t.3)
    }
}

/// A well-formed raw tarball entry: a directory or a regular file — any
/// other kind (a link, a device, a fifo) is an unexpected entry — where a
/// directory carries no bytes and a file's name does not end in '/'.
pub open spec fn raw_entry_wf(t: (Seq<char>, u8, bool, Seq<u8>)) -> bool {
    &&& t.1 == TAR_TYPE_DIRECTORY || t.1 == TAR_TYPE_REGULAR
    &&& t.1 == TAR_TYPE_DIRECTORY ==> t.3.len() == 0
    &&& t.1 == TAR_TYPE_REGULAR ==> !is_dir_path(t.0)
}

/// Every raw entry of a tarball is well formed and yields a safe path.
pub open spec fn tgz_all_wf(ts: Seq<(Seq<char>, u8, bool, Seq<u8>)>) -> bool {
    forall|j: int|
        0 <= j < ts.len() ==> raw_entry_wf(#[trigger] ts[j]) && safe_path(norm_raw_entry(ts[j]).0)
}

/// Whether a decoded tarball, if well formed at all, passes the guard whole.
pub open spec fn tgz_ok(o: Option<Seq<(Seq<char>, u8, bool, Seq<u8>)>>) -> bool {
    match o {
        Some(ts) => tgz_all_wf(ts),
        None => false,
    }
}

/// The snapshot a sequence of raw tarball entries denotes.
pub open spec fn tgz_models(ts: Seq<(Seq<char>, u8, bool, Seq<u8>)>) -> Seq<
    (Seq<char>, bool, Seq<u8>),
> {
    ts.map_values(|t: (Seq<char>, u8, bool, Seq<u8>)| norm_raw_entry(t))
}

/// Every raw entry of a tarball is a supported kind and well formed, paths
/// aside.
pub open spec fn tgz_all_formed(ts: Seq<(Seq<char>, u8, bool, Seq<u8>)>) -> bool {
    forall|j: int| 0 <= j < ts.len() ==> raw_entry_wf(#[trigger] ts[j])
}

proof fn lemma_not_all_wf(ts: Seq<(Seq<char>, u8, bool, Seq<u8>)>, i: int)
    requires
        0 <= i < ts.len(),
        !(raw_entry_wf(ts[i]) && safe_path(norm_raw_entry(ts[i]).0)),
    ensures
        !tgz_all_wf(ts),
        !raw_entry_wf(ts[i]) ==> !tgz_all_formed(ts),
{
}

/// Reads a gzip-compressed tarball held in memory into a snapshot, with the
/// same traversal guard as the zip path. Succeeds exactly on well-formed
/// tarballs all of whose entries are of a supported kind — a directory or a
/// regular file — well formed and safe; an unexpected kind such as a link or
/// a device is rejected as `Extraction`, never flattened into a file, and an
/// unsafe path in an otherwise well-formed tarball is rejected as
/// `PathTraversal`.
pub fn extract_tgz(archive: &[u8]) -> (r: Result<Vec<PackEntry>, ProvisionError>)
    ensures
        r is Ok <==> tgz_ok(tgz_entries_of(archive@)),
        r matches Ok(es) ==> tgz_entries_of(archive@) matches Some(ts) && entry_models(es@)
            == tgz_models(ts),
        r matches Ok(es) ==> entries_safe(entry_models(es@)),
        tgz_entries_of(archive@) is None ==> r matches Err(ProvisionError::Extraction),
        (tgz_entries_of(archive@) matches Some(ts) && tgz_all_formed(ts) && !tgz_all_wf(ts)) ==> (
        r matches Err(ProvisionError::PathTraversal { name }) && !safe_path(name@)),
        r matches Err(e) ==> e is Extraction || e is PathTraversal,
        r matches Err(e) ==> e matches ProvisionError::PathTraversal { name } ==> !safe_path(
            name@,
        ),
{
    let triples = match tgz_read_entries(archive) {
        Ok(t) => t,
        Err(_) => {
            return Err(ProvisionError::Extraction);
        },
    };
    let ghost ts = raw_models(triples@);
    let n = triples.len();
    let mut out: Vec<PackEntry> = Vec::new();
    let mut i: usize = 0;
    while i < n
        invariant
            Some(ts) == tgz_entries_of(archive@),
            ts == raw_models(triples@),
            n == triples@.len(),
            n == ts.len(),
            i <= n,
            forall|j: int|
                0 <= j < i ==> raw_entry_wf(#[trigger] ts[j]) && safe_path(norm_raw_entry(ts[j]).0),
            entry_models(out@) == tgz_models(ts).take(i as int),
            entries_safe(entry_models(out@)),
        decreases n - i,
    {
        let t = &triples[i];
        proof {
            let ti = triples@[i as int];
            assert(ts[i as int] == (ti.0@, ti.1, ti.2, ti.3@));
        }
        let mut path = String::from_str(t.0.as_str());
        let dir_named = check_dir_path(path.as_str());
        if t.1 == TAR_TYPE_DIRECTORY {
            if t.3.len() > 0 {
                proof {
                    assert(!(raw_entry_wf(ts[i as int]) && safe_path(norm_raw_entry(ts[i as int]).0)));
                    lemma_not_all_wf(ts, i as int);
                }
                return Err(ProvisionError::Extraction);
            }
            if !dir_named {
                path.append("/");
            }
        } else if t.1 == TAR_TYPE_REGULAR {
            if dir_named {
                proof {
                    assert(!(raw_entry_wf(ts[i as int]) && safe_path(norm_raw_entry(ts[i as int]).0)));
                    lemma_not_all_wf(ts, i as int);
                }
                return Err(ProvisionError::Extraction);
            }
        } else {
            // An unexpected entry kind — a link, a device, a fifo — cannot be
            // represented in a snapshot and is rejected rather than silently
            // flattened into an empty file.
            proof {
                assert(!(raw_entry_wf(ts[i as int]) && safe_path(norm_raw_entry(ts[i as int]).0)));
                lemma_not_all_wf(ts, i as int);
            }
            return Err(ProvisionError::Extraction);
        }
        proof {
            assert(path@ == norm_raw_entry(ts[i as int]).0);
        }
        if !check_path_safe(path.as_str()) {
            proof {
                assert(!(raw_entry_wf(ts[i as int]) && safe_path(norm_raw_entry(ts[i as int]).0)));
                lemma_not_all_wf(ts, i as int);
            }
            return Err(ProvisionError::PathTraversal { name: path });
        }
        let data = vstd::slice::slice_to_vec(t.3.as_slice());
        let ghost out0 = out@;
        out.push(PackEntry { path, executable: t.2, data });
        proof {
            let m_new = entry_models(out@);
            let m_exp = tgz_models(ts).take(i + 1 as int);
            assert(tgz_models(ts).len() == ts.len());
            assert(entry_models(out0).len() == out0.len());
            assert(out0.len() == i);
            assert(out@ == out0.push(out@[i as int]));
            assert(m_new.len() == i + 1 && m_exp.len() == i + 1);
            assert forall|x: int| 0 <= x < i + 1 implies m_new[x] == m_exp[x] by {
                assert(m_new[x] == out@[x]@);
                if x < i {
                    assert(m_new[x] == entry_models(out0)[x]);
                    assert(m_exp[x] == tgz_models(ts).take(i as int)[x]);
                } else {
                    assert(m_new[x] == (out@[x].path@, out@[x].executable, out@[x].data@));
                    assert(m_exp[x] == norm_raw_entry(ts[x]));
                }
            }
            assert(m_new =~= m_exp);
        }
        i += 1;
    }
    proof {
        assert(tgz_models(ts).take(n as int) =~= tgz_models(ts));
        assert(tgz_all_wf(ts));
    }
    Ok(out)
}

/// Dispatches extraction on the archive kind, as the fetch step does after a
/// download.
pub fn extract_archive(archive: &[u8], kind: crate::platform::FileType) -> (r: Result<
    Vec<PackEntry>,
    ProvisionError,
>)
    ensures
        r matches Ok(es) ==> entries_safe(entry_models(es@)),
        r matches Err(e) ==> e is Extraction || e is PathTraversal,
        kind is Zip ==> forall|ms: Seq<(Seq<char>, bool, Seq<u8>)>|
            #[trigger] unpack_must_yield(archive@, ms) ==> (r matches Ok(es)
                && entry_models(es@) == ms),
        kind is Tgz ==> (r is Ok <==> tgz_ok(tgz_entries_of(archive@))),
        kind is Tgz ==> (r matches Ok(es) ==> (tgz_entries_of(archive@) matches Some(ts)
            && entry_models(es@) == tgz_models(ts))),
        kind is Tgz ==> (tgz_entries_of(archive@) is None ==> r matches Err(
            ProvisionError::Extraction,
        )),
        kind is Tgz ==> ((tgz_entries_of(archive@) matches Some(ts) && tgz_all_formed(ts)
            && !tgz_all_wf(ts)) ==> (r matches Err(ProvisionError::PathTraversal { name })
            && !safe_path(name@))),
        kind is Zip ==> (r matches Ok(es) ==> Some(entry_models(es@)) == zip_entries_of(archive@)),
        kind is Zip ==> (zip_entries_of(archive@) is None ==> r matches Err(
            ProvisionError::Extraction,
        )),
        kind is Zip ==> ((zip_entries_of(archive@) matches Some(es) && zip_readable_of(archive@)
            && entries_safe(es)) ==> r is Ok),
        kind is Zip ==> ((zip_entries_of(archive@) matches Some(es) && zip_readable_of(archive@)
            && !entries_safe(es)) ==> (r matches Err(ProvisionError::PathTraversal { name })
            && !safe_path(name@))),
{
    match kind {
        crate::platform::FileType::Tgz => extract_tgz(archive),
        crate::platform::FileType::Zip => extract_zip(archive),
    }
}

/// Reconstitutes the snapshot packed into an embedded blob, at run time. The
/// decode path and the traversal guard are the same as `extract_zip`'s; a
/// malformed blob is reported as `Unpack`.
pub fn unpack(blob: &[u8]) -> (r: Result<Vec<PackEntry>, ProvisionError>)
    ensures
        r matches Ok(es) ==> entries_safe(entry_models(es@)),
        r matches Ok(es) ==> Some(entry_models(es@)) == zip_entries_of(blob@),
        zip_entries_of(blob@) is None ==> r matches Err(ProvisionError::Unpack),
        (zip_entries_of(blob@) matches Some(es) && zip_readable_of(blob@) && entries_safe(es))
            ==> r is Ok,
        (zip_entries_of(blob@) matches Some(es) && zip_readable_of(blob@) && !entries_safe(es))
            ==> (r matches Err(ProvisionError::PathTraversal { name }) && !safe_path(name@)),
        forall|ms: Seq<(Seq<char>, bool, Seq<u8>)>|
            #[trigger] unpack_must_yield(blob@, ms) ==> (r matches Ok(es)
                && entry_models(es@) == ms),
        r matches Err(e) ==> e is Unpack || e is PathTraversal,
        r matches Err(e) ==> e matches ProvisionError::PathTraversal { name } ==> !safe_path(
            name@,
        ),
{
    match extract_zip(blob) {
        Ok(es) => Ok(es),
        Err(e) => match e {
            ProvisionError::PathTraversal { name } => Err(
                ProvisionError::PathTraversal { name },
            ),
            _ => Err(ProvisionError::Unpack),
        },
    }
}

/// The path at which the reconstituted library is found under a scratch
/// directory: `<scratch_dir>/<library file name>`. The file name is derived
/// from the running platform, not from the blob.
pub fn runtime_library_path(scratch_dir: &str, d: crate::platform::DylibName) -> (r: String)
    ensures
        r@ == scratch_dir@ + "/"@ + crate::platform::dylib_file_name_spec(d),
{
    let mut p = String::from_str(scratch_dir);
    p.append("/");
    p.append(crate::platform::dylib_file_name(d));
    p
}

/// Content round trip: a valid snapshot the packer accepted is reproduced
/// verbatim by `unpack` from the packed bytes — the same relative paths,
/// empty directories included, and the same file bytes.
pub proof fn lemma_pack_unpack_round_trip(ms: Seq<(Seq<char>, bool, Seq<u8>)>)
    requires
        valid_tree(ms),
        zip_packable(ms),
    ensures
        unpack_must_yield(zip_blob_of(ms), ms),
{
}

/// Packing is deterministic: two blobs packed from the same snapshot hold the
/// same bytes.
pub proof fn lemma_pack_deterministic(ms: Seq<(Seq<char>, bool, Seq<u8>)>, b1: Seq<u8>, b2: Seq<u8>)
    requires
        b1 == zip_blob_of(ms),
        b2 == zip_blob_of(ms),
    ensures
        b1 == b2,
{
}

} // verus!
