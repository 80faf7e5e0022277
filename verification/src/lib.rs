//! Build-time provisioning of the ONNX Runtime dynamic library: platform
//! resolution, cached download orchestration, safe archive extraction, and a
//! packed-directory blob that a program can unpack again at run time.
mod cache;
mod entries;
mod error;
mod pack;
mod platform;
mod tar_io;
mod text;
mod zip_io;

pub use cache::{
    action_count, archive_path_spec, cache_dir_spec, cache_paths, cache_paths_wf, dylib_path_spec,
    expects_spec, fetch_action, fetch_next, fetch_start, holds_lock, lemma_download_at_most_once,
    lemma_extract_at_most_once, lemma_no_rework, lemma_phase_monotone,
    lemma_populated_cache_skips_work, lemma_release_discipline, lemma_work_only_under_lock,
    lib_dir_spec, lock_path_spec, phase, session_wf, CachePaths, FetchAction, FetchEvent,
    FetchSession, FetchState,
};
pub use entries::{
    check_dir_path, check_path_safe, distinct_paths, dotdot_at, entries_safe, entry_models,
    is_dir_path, lemma_dotdot_never_safe, raw_models, safe_path, valid_tree, PackEntry,
};
pub use error::ProvisionError;
pub use pack::{
    extract_archive, extract_tgz, extract_zip, lemma_pack_deterministic,
    lemma_pack_unpack_round_trip, norm_raw_entry, raw_entry_wf, runtime_library_path,
    tgz_all_formed, tgz_all_wf, tgz_models, tgz_ok, unpack, unpack_must_yield, zip_dir,
    TAR_TYPE_DIRECTORY, TAR_TYPE_REGULAR,
};
pub use platform::{
    archive_ext_spec, check_version, download_spec_wf, dylib_file_name, dylib_file_name_spec,
    dylib_name_for_os, file_type_spec, lemma_url_contains_version, package_name_spec,
    platform_tag, resolve, supported_os, supported_pair, url_spec, version_supported,
    DownloadSpec, DylibName, FileType,
};
pub use tar_io::tgz_entries_of;
pub use text::{dec_digit_spec, str_eq, u8_dec, u8_dec_spec};
pub use zip_io::{
    entries_within_limits, entry_within_limits, fresh_name, zip_blob_of, zip_entries_of,
    zip_packable, zip_readable_of,
};
