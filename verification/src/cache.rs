//! The fetch-cache manager, as a verified decision core. One `FetchSession`
//! drives one provisioning run for one version: the caller performs the
//! commanded filesystem, lock and network work and reports each result back
//! as an event; the session decides every next step. The lock is the mutual
//! exclusion boundary: every decision to download, extract or pack is taken
//! while it is held, and it is released on every exit path.
use vstd::prelude::*;

use crate::error::ProvisionError;
use crate::platform::{
    check_version, dylib_file_name, dylib_file_name_spec, resolve, supported_pair,
    version_supported, DownloadSpec,
};

verus! {

/// Where each file of one cache entry lives, relative to a cache root. All
/// paths are '/'-separated strings; the caller turns them into native paths.
pub struct CachePaths {
    pub cache_dir: String,
    pub archive_path: String,
    pub lib_dir: String,
    pub dylib_path: String,
    pub lock_path: String,
}

/// The directory of one cache entry: `<root>/<version>`.
pub open spec fn cache_dir_spec(root: Seq<char>, v: Seq<char>) -> Seq<char> {
    root + "/"@ + v
}

/// The downloaded archive: `<cache_dir>/<package>.<ext>`.
pub open spec fn archive_path_spec(
    root: Seq<char>,
    v: Seq<char>,
    pkg: Seq<char>,
    ext: Seq<char>,
) -> Seq<char> {
    cache_dir_spec(root, v) + "/"@ + pkg + "."@ + ext
}

/// The extracted library directory: `<cache_dir>/<package>/lib`.
pub open spec fn lib_dir_spec(root: Seq<char>, v: Seq<char>, pkg: Seq<char>) -> Seq<char> {
    cache_dir_spec(root, v) + "/"@ + pkg + "/lib"@
}

/// The library file itself: `<lib_dir>/<library file name>`.
pub open spec fn dylib_path_spec(
    root: Seq<char>,
    v: Seq<char>,
    pkg: Seq<char>,
    name: Seq<char>,
) -> Seq<char> {
    lib_dir_spec(root, v, pkg) + "/"@ + name
}

/// The lock file guarding the entry: `<cache_dir>/onnx_download.lock`.
pub open spec fn lock_path_spec(root: Seq<char>, v: Seq<char>) -> Seq<char> {
    cache_dir_spec(root, v) + "/onnx_download.lock"@
}

/// What `cache_paths` promises of the computed layout.
pub open spec fn cache_paths_wf(
    p: CachePaths,
    root: Seq<char>,
    v: Seq<char>,
    d: DownloadSpec,
) -> bool {
    &&& p.cache_dir@ == cache_dir_spec(root, v)
    &&& p.archive_path@ == archive_path_spec(root, v, d.package_name@, d.archive_ext@)
    &&& p.lib_dir@ == lib_dir_spec(root, v, d.package_name@)
    &&& p.dylib_path@ == dylib_path_spec(root, v, d.package_name@, dylib_file_name_spec(
        d.dylib_name,
    ))
    &&& p.lock_path@ == lock_path_spec(root, v)
}

/// Computes the stable on-disk layout of one cache entry.
pub fn cache_paths(cache_root: &str, version: &str, d: &DownloadSpec) -> (r: CachePaths)
    ensures
        cache_paths_wf(r, cache_root@, version@, *d),
{
    let mut cache_dir = String::from_str(cache_root);
    cache_dir.append("/");
    cache_dir.append(version);

    let mut archive_path = cache_dir.clone();
    archive_path.append("/");
    archive_path.append(d.package_name.as_str());
    archive_path.append(".");
    archive_path.append(d.archive_ext.as_str());

    let mut lib_dir = cache_dir.clone();
    lib_dir.append("/");
    lib_dir.append(d.package_name.as_str());
    lib_dir.append("/lib");

    let mut dylib_path = lib_dir.clone();
    dylib_path.append("/");
    dylib_path.append(dylib_file_name(d.dylib_name));

    let mut lock_path = cache_dir.clone();
    lock_path.append("/onnx_download.lock");

    CachePaths { cache_dir, archive_path, lib_dir, dylib_path, lock_path }
}

/// The control states of one fetch-cache session.
#[derive(Clone, Copy, PartialEq, Eq, Structural, Debug)]
pub enum FetchState {
    /// Waiting for the cross-process lock on the cache entry.
    AwaitLock,
    /// Holding the lock; waiting to learn whether the archive is present.
    AwaitArchiveProbe,
    /// Holding the lock; waiting for the download to finish.
    AwaitDownload,
    /// Holding the lock; waiting to learn whether the library is present.
    AwaitLibraryProbe,
    /// Holding the lock; waiting for the extraction to finish.
    AwaitExtract,
    /// Holding the lock; waiting for the library probe after extraction.
    AwaitExtractedProbe,
    /// Holding the lock; waiting for the packed blob.
    AwaitPack,
    /// Outcome decided; waiting for the lock to be released.
    AwaitRelease,
    /// The session is over; the outcome is available.
    Finished,
}

/// What the caller reports back after performing a commanded action.
pub enum FetchEvent {
    LockAcquired,
    LockFailed,
    ArchiveProbed { present: bool },
    DownloadFinished,
    DownloadFailed,
    LibraryProbed { present: bool },
    ExtractFinished,
    ExtractFailed { error: ProvisionError },
    PackFinished { blob: Vec<u8> },
    PackFailed { error: ProvisionError },
    LockReleased,
}

/// The next piece of outside work the session commands.
#[derive(Clone, Copy, PartialEq, Eq, Structural, Debug)]
pub enum FetchAction {
    /// Open (creating it if absent) and lock the entry's lock file.
    AcquireLock,
    /// Report whether a file exists at `archive_path`.
    ProbeArchive,
    /// Fetch `url` and write it to `archive_path` so that no truncated file
    /// can ever be observed at that path (write aside, then rename).
    Download,
    /// Report whether a file exists at `dylib_path`.
    ProbeLibrary,
    /// Extract the archive at `archive_path` into `cache_dir`.
    Extract,
    /// Pack the `lib_dir` tree into a blob.
    Pack,
    /// Release the lock.
    ReleaseLock,
    /// The session is over; take the outcome.
    Conclude,
}

/// The states in which the session holds the cross-process lock.
pub open spec fn holds_lock(st: FetchState) -> bool {
    match st {
        FetchState::AwaitLock => false,
        FetchState::Finished => false,
        _ => true,
    }
}

/// Which events belong to which state.
pub open spec fn expects_spec(st: FetchState, e: FetchEvent) -> bool {
    match (st, e) {
        (FetchState::AwaitLock, FetchEvent::LockAcquired) => true,
        (FetchState::AwaitLock, FetchEvent::LockFailed) => true,
        (FetchState::AwaitArchiveProbe, FetchEvent::ArchiveProbed { .. }) => true,
        (FetchState::AwaitDownload, FetchEvent::DownloadFinished) => true,
        (FetchState::AwaitDownload, FetchEvent::DownloadFailed) => true,
        (FetchState::AwaitLibraryProbe, FetchEvent::LibraryProbed { .. }) => true,
        (FetchState::AwaitExtract, FetchEvent::ExtractFinished) => true,
        (FetchState::AwaitExtract, FetchEvent::ExtractFailed { .. }) => true,
        (FetchState::AwaitExtractedProbe, FetchEvent::LibraryProbed { .. }) => true,
        (FetchState::AwaitPack, FetchEvent::PackFinished { .. }) => true,
        (FetchState::AwaitPack, FetchEvent::PackFailed { .. }) => true,
        (FetchState::AwaitRelease, FetchEvent::LockReleased) => true,
        _ => false,
    }
}

/// The state transition relation.
pub open spec fn fetch_next(st: FetchState, e: FetchEvent) -> FetchState {
    match (st, e) {
        (FetchState::AwaitLock, FetchEvent::LockAcquired) => FetchState::AwaitArchiveProbe,
        (FetchState::AwaitLock, FetchEvent::LockFailed) => FetchState::Finished,
        (FetchState::AwaitArchiveProbe, FetchEvent::ArchiveProbed { present }) => if present {
            FetchState::AwaitLibraryProbe
        } else {
            FetchState::AwaitDownload
        },
        (FetchState::AwaitDownload, FetchEvent::DownloadFinished) => FetchState::AwaitLibraryProbe,
        (FetchState::AwaitDownload, FetchEvent::DownloadFailed) => FetchState::AwaitRelease,
        (FetchState::AwaitLibraryProbe, FetchEvent::LibraryProbed { present }) => if present {
            FetchState::AwaitPack
        } else {
            FetchState::AwaitExtract
        },
        (FetchState::AwaitExtract, FetchEvent::ExtractFinished) => FetchState::AwaitExtractedProbe,
        (FetchState::AwaitExtract, FetchEvent::ExtractFailed { .. }) => FetchState::AwaitRelease,
        (FetchState::AwaitExtractedProbe, FetchEvent::LibraryProbed { present }) => if present {
            FetchState::AwaitPack
        } else {
            FetchState::AwaitRelease
        },
        (FetchState::AwaitPack, FetchEvent::PackFinished { .. }) => FetchState::AwaitRelease,
        (FetchState::AwaitPack, FetchEvent::PackFailed { .. }) => FetchState::AwaitRelease,
        (FetchState::AwaitRelease, FetchEvent::LockReleased) => FetchState::Finished,
        _ => st,
    }
}

/// The action commanded on each transition.
pub open spec fn fetch_action(st: FetchState, e: FetchEvent) -> FetchAction {
    match (st, e) {
        (FetchState::AwaitLock, FetchEvent::LockAcquired) => FetchAction::ProbeArchive,
        (FetchState::AwaitLock, FetchEvent::LockFailed) => FetchAction::Conclude,
        (FetchState::AwaitArchiveProbe, FetchEvent::ArchiveProbed { present }) => if present {
            FetchAction::ProbeLibrary
        } else {
            FetchAction::Download
        },
        (FetchState::AwaitDownload, FetchEvent::DownloadFinished) => FetchAction::ProbeLibrary,
        (FetchState::AwaitDownload, FetchEvent::DownloadFailed) => FetchAction::ReleaseLock,
        (FetchState::AwaitLibraryProbe, FetchEvent::LibraryProbed { present }) => if present {
            FetchAction::Pack
        } else {
            FetchAction::Extract
        },
        (FetchState::AwaitExtract, FetchEvent::ExtractFinished) => FetchAction::ProbeLibrary,
        (FetchState::AwaitExtract, FetchEvent::ExtractFailed { .. }) => FetchAction::ReleaseLock,
        (FetchState::AwaitExtractedProbe, FetchEvent::LibraryProbed { present }) => if present {
            FetchAction::Pack
        } else {
            FetchAction::ReleaseLock
        },
        (FetchState::AwaitPack, FetchEvent::PackFinished { .. }) => FetchAction::ReleaseLock,
        (FetchState::AwaitPack, FetchEvent::PackFailed { .. }) => FetchAction::ReleaseLock,
        (FetchState::AwaitRelease, FetchEvent::LockReleased) => FetchAction::Conclude,
        _ => FetchAction::Conclude,
    }
}

/// One provisioning run for one version.
pub struct FetchSession {
    pub state: FetchState,
    pub download: DownloadSpec,
    pub paths: CachePaths,
    pub outcome: Option<Result<Vec<u8>, ProvisionError>>,
}

/// A session's outcome is decided exactly when it is winding down or over.
pub open spec fn session_wf(s: FetchSession) -> bool {
    (s.state is AwaitRelease || s.state is Finished) <==> s.outcome is Some
}

impl FetchSession {
    /// Whether `e` is the report the session is waiting for. The caller must
    /// check this before calling `step`.
    pub fn expects(&self, e: &FetchEvent) -> (r: bool)
        ensures
            r == expects_spec(self.state, *e),
    {
        match (self.state, e) {
            (FetchState::AwaitLock, FetchEvent::LockAcquired) => true,
            (FetchState::AwaitLock, FetchEvent::LockFailed) => true,
            (FetchState::AwaitArchiveProbe, FetchEvent::ArchiveProbed { .. }) => true,
            (FetchState::AwaitDownload, FetchEvent::DownloadFinished) => true,
            (FetchState::AwaitDownload, FetchEvent::DownloadFailed) => true,
            (FetchState::AwaitLibraryProbe, FetchEvent::LibraryProbed { .. }) => true,
            (FetchState::AwaitExtract, FetchEvent::ExtractFinished) => true,
            (FetchState::AwaitExtract, FetchEvent::ExtractFailed { .. }) => true,
            (FetchState::AwaitExtractedProbe, FetchEvent::LibraryProbed { .. }) => true,
            (FetchState::AwaitPack, FetchEvent::PackFinished { .. }) => true,
            (FetchState::AwaitPack, FetchEvent::PackFailed { .. }) => true,
            (FetchState::AwaitRelease, FetchEvent::LockReleased) => true,
            _ => false,
        }
    }

    /// Feeds one report into the session and returns the next command. The
    /// transition is exactly `fetch_next` / `fetch_action`; the outcome is
    /// recorded the moment it is decided, and the lock is released before the
    /// session concludes, on success and on every failure alike.
    pub fn step(&mut self, e: FetchEvent) -> (a: FetchAction)
        requires
            session_wf(*old(self)),
            expects_spec(old(self).state, e),
        ensures
            session_wf(*final(self)),
            final(self).state == fetch_next(old(self).state, e),
            a == fetch_action(old(self).state, e),
            final(self).download == old(self).download,
            final(self).paths == old(self).paths,
            (match (old(self).state, e) {
                (FetchState::AwaitLock, FetchEvent::LockFailed) => final(self).outcome matches Some(
                    Err(ProvisionError::LockAcquisition),
                ),
                (
                    FetchState::AwaitDownload,
                    FetchEvent::DownloadFailed,
                ) => (final(self).outcome matches Some(Err(ProvisionError::Download { url }))
                    && url@ == old(self).download.url@),
                (
                    FetchState::AwaitExtract,
                    FetchEvent::ExtractFailed { error },
                ) => (final(self).outcome matches Some(Err(e2)) && e2 == error),
                (FetchState::AwaitExtractedProbe, FetchEvent::LibraryProbed { present }) => if present {
                    final(self).outcome == old(self).outcome
                } else {
                    final(self).outcome matches Some(Err(ProvisionError::MissingArtifact))
                },
                (
                    FetchState::AwaitPack,
                    FetchEvent::PackFinished { blob },
                ) => (final(self).outcome matches Some(Ok(b)) && b == blob),
                (
                    FetchState::AwaitPack,
                    FetchEvent::PackFailed { error },
                ) => (final(self).outcome matches Some(Err(e2)) && e2 == error),
                _ => final(self).outcome == old(self).outcome,
            }),
    {
        let st = self.state;
        match (st, e) {
            (FetchState::AwaitLock, FetchEvent::LockAcquired) => {
                self.state = FetchState::AwaitArchiveProbe;
                FetchAction::ProbeArchive
            },
            (FetchState::AwaitLock, FetchEvent::LockFailed) => {
                self.outcome = Some(Err(ProvisionError::LockAcquisition));
                self.state = FetchState::Finished;
                FetchAction::Conclude
            },
            (FetchState::AwaitArchiveProbe, FetchEvent::ArchiveProbed { present }) => {
                if present {
                    self.state = FetchState::AwaitLibraryProbe;
                    FetchAction::ProbeLibrary
                } else {
                    self.state = FetchState::AwaitDownload;
                    FetchAction::Download
                }
            },
            (FetchState::AwaitDownload, FetchEvent::DownloadFinished) => {
                self.state = FetchState::AwaitLibraryProbe;
                FetchAction::ProbeLibrary
            },
            (FetchState::AwaitDownload, FetchEvent::DownloadFailed) => {
                self.outcome = Some(
                    Err(
                        ProvisionError::Download {
                            url: String::from_str(self.download.url.as_str()),
                        },
                    ),
                );
                self.state = FetchState::AwaitRelease;
                FetchAction::ReleaseLock
            },
            (FetchState::AwaitLibraryProbe, FetchEvent::LibraryProbed { present }) => {
                if present {
                    self.state = FetchState::AwaitPack;
                    FetchAction::Pack
                } else {
                    self.state = FetchState::AwaitExtract;
                    FetchAction::Extract
                }
            },
            (FetchState::AwaitExtract, FetchEvent::ExtractFinished) => {
                self.state = FetchState::AwaitExtractedProbe;
                FetchAction::ProbeLibrary
            },
            (FetchState::AwaitExtract, FetchEvent::ExtractFailed { error }) => {
                self.outcome = Some(Err(error));
                self.state = FetchState::AwaitRelease;
                FetchAction::ReleaseLock
            },
            (FetchState::AwaitExtractedProbe, FetchEvent::LibraryProbed { present }) => {
                if present {
                    self.state = FetchState::AwaitPack;
                    FetchAction::Pack
                } else {
                    self.outcome = Some(Err(ProvisionError::MissingArtifact));
                    self.state = FetchState::AwaitRelease;
                    FetchAction::ReleaseLock
                }
            },
            (FetchState::AwaitPack, FetchEvent::PackFinished { blob }) => {
                self.outcome = Some(Ok(blob));
                self.state = FetchState::AwaitRelease;
                FetchAction::ReleaseLock
            },
            (FetchState::AwaitPack, FetchEvent::PackFailed { error }) => {
                self.outcome = Some(Err(error));
                self.state = FetchState::AwaitRelease;
                FetchAction::ReleaseLock
            },
            (FetchState::AwaitRelease, FetchEvent::LockReleased) => {
                self.state = FetchState::Finished;
                FetchAction::Conclude
            },
            _ => {
                proof {
                    assert(false);
                }
                FetchAction::Conclude
            },
        }
    }
}

/// Opens a provisioning session. The version gate comes first and the
/// platform gate second, both before any lock, filesystem or network work is
/// commanded; a session is returned exactly when both pass.
pub fn fetch_start(cache_root: &str, os: &str, arch: &str, version: &str) -> (r: Result<
    (FetchSession, FetchAction),
    ProvisionError,
>)
    ensures
        r is Ok <==> version_supported(version@) && supported_pair(os@, arch@),
        !version_supported(version@) ==> (r matches Err(e) && e matches
            ProvisionError::UnsupportedVersion { version: ev } && ev@ == version@),
        version_supported(version@) && !supported_pair(os@, arch@) ==> (r matches Err(e)
            && e matches ProvisionError::UnsupportedPlatform { os: eo, arch: ea } && eo@ == os@
            && ea@ == arch@),
        r matches Ok(p) ==> p.1 == FetchAction::AcquireLock && p.0.state == FetchState::AwaitLock
            && p.0.outcome is None && session_wf(p.0) && crate::platform::download_spec_wf(
            p.0.download,
            os@,
            arch@,
            version@,
        ) && cache_paths_wf(p.0.paths, cache_root@, version@, p.0.download),
{
    match check_version(version) {
        Ok(()) => {},
        Err(e) => {
            return Err(e);
        },
    }
    let download = match resolve(os, arch, version) {
        Ok(d) => d,
        Err(e) => {
            return Err(e);
        },
    };
    let paths = cache_paths(cache_root, version, &download);
    let session = FetchSession { state: FetchState::AwaitLock, download, paths, outcome: None };
    Ok((session, FetchAction::AcquireLock))
}

/// Each state's distance from the start: every step strictly advances, so no
/// state is ever revisited within a session. Download is commanded only on
/// the step out of `AwaitArchiveProbe` and extraction only on the step out of
/// `AwaitLibraryProbe`, so a session downloads at most once and extracts at
/// most once.
pub open spec fn phase(st: FetchState) -> int {
    match st {
        FetchState::AwaitLock => 0,
        FetchState::AwaitArchiveProbe => 1,
        FetchState::AwaitDownload => 2,
        FetchState::AwaitLibraryProbe => 3,
        FetchState::AwaitExtract => 4,
        FetchState::AwaitExtractedProbe => 5,
        FetchState::AwaitPack => 6,
        FetchState::AwaitRelease => 7,
        FetchState::Finished => 8,
    }
}

/// A session never repeats work: every accepted step strictly advances the
/// phase, so each action is commanded at most once per session.
pub proof fn lemma_no_rework(st: FetchState, e: FetchEvent)
    requires
        expects_spec(st, e),
    ensures
        phase(fetch_next(st, e)) > phase(st),
{
}

/// Mutating work happens only under the lock: any step that commands a
/// download, an extraction or packing is taken while the lock is held and
/// still holds it afterwards.
pub proof fn lemma_work_only_under_lock(st: FetchState, e: FetchEvent)
    requires
        expects_spec(st, e),
        fetch_action(st, e) is Download || fetch_action(st, e) is Extract || fetch_action(
            st,
            e,
        ) is Pack,
    ensures
        holds_lock(st),
        holds_lock(fetch_next(st, e)),
{
}

/// The lock discipline: the lock is gained only by acquiring it, a release is
/// commanded only while it is held, and the session never concludes with the
/// lock still held — on success and on every failure alike.
pub proof fn lemma_release_discipline(st: FetchState, e: FetchEvent)
    requires
        expects_spec(st, e),
    ensures
        fetch_action(st, e) is ReleaseLock ==> holds_lock(st),
        fetch_action(st, e) is Conclude ==> !holds_lock(fetch_next(st, e)),
        !holds_lock(st) && holds_lock(fetch_next(st, e)) ==> e is LockAcquired,
{
}

/// How often a run of reports makes the session command `a`.
pub open spec fn action_count(st: FetchState, evs: Seq<FetchEvent>, a: FetchAction) -> nat
    decreases evs.len(),
{
    if evs.len() == 0 {
        0
    } else {
        (if fetch_action(st, evs[0]) == a {
            1nat
        } else {
            0nat
        }) + action_count(fetch_next(st, evs[0]), evs.drop_first(), a)
    }
}

/// No event, expected or not, ever moves a session backwards.
pub proof fn lemma_phase_monotone(st: FetchState, e: FetchEvent)
    ensures
        phase(fetch_next(st, e)) >= phase(st),
{
}

/// Whatever reports a session is fed, it commands at most one download, and
/// none at all once it has moved past the archive probe — so a populated
/// cache is never downloaded again, and no run downloads twice.
pub proof fn lemma_download_at_most_once(st: FetchState, evs: Seq<FetchEvent>)
    ensures
        action_count(st, evs, FetchAction::Download) <= 1,
        phase(st) > phase(FetchState::AwaitArchiveProbe) ==> action_count(
            st,
            evs,
            FetchAction::Download,
        ) == 0,
    decreases evs.len(),
{
    if evs.len() > 0 {
        let st2 = fetch_next(st, evs[0]);
        lemma_phase_monotone(st, evs[0]);
        lemma_download_at_most_once(st2, evs.drop_first());
    }
}

/// Likewise at most one extraction, and none once the session has moved past
/// the first library probe.
pub proof fn lemma_extract_at_most_once(st: FetchState, evs: Seq<FetchEvent>)
    ensures
        action_count(st, evs, FetchAction::Extract) <= 1,
        phase(st) > phase(FetchState::AwaitLibraryProbe) ==> action_count(
            st,
            evs,
            FetchAction::Extract,
        ) == 0,
    decreases evs.len(),
{
    if evs.len() > 0 {
        let st2 = fetch_next(st, evs[0]);
        lemma_phase_monotone(st, evs[0]);
        lemma_extract_at_most_once(st2, evs.drop_first());
    }
}

/// Idempotence of a populated cache: when the probes report the archive and
/// the library already present, the session goes straight from locking to
/// packing, commanding neither a download nor an extraction.
pub proof fn lemma_populated_cache_skips_work()
    ensures
        fetch_next(FetchState::AwaitLock, FetchEvent::LockAcquired)
            == FetchState::AwaitArchiveProbe,
        fetch_action(FetchState::AwaitArchiveProbe, FetchEvent::ArchiveProbed { present: true })
            == FetchAction::ProbeLibrary,
        fetch_next(FetchState::AwaitArchiveProbe, FetchEvent::ArchiveProbed { present: true })
            == FetchState::AwaitLibraryProbe,
        fetch_action(FetchState::AwaitLibraryProbe, FetchEvent::LibraryProbed { present: true })
            == FetchAction::Pack,
        fetch_next(FetchState::AwaitLibraryProbe, FetchEvent::LibraryProbed { present: true })
            == FetchState::AwaitPack,
{
}

} // verus!
