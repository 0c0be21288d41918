//! Preload library locator.
//!
//! The injection mechanism needs the filesystem path of the shared
//! instrumentation library that the dynamic linker will load into each
//! benchmark process.  The library is expected beside the harness executable.
//! Whether that file exists, and what directory the executable lives in, are
//! facts only the embedding program can observe; the decision over those
//! facts is made here.  The locator has no side effects, so one result may be
//! reused across every command of a run.

use crate::errors::LocatorError;
use vstd::prelude::*;

verus! {

/// File name of the injectable shared instrumentation library.
pub open spec fn preload_lib_name() -> Seq<char> {
    "libinstrument_hooks.so"@
}

/// The path where the preload library is expected: the shared library's file
/// name inside the directory of the harness executable.
pub open spec fn candidate_path_spec(exe_dir: Seq<char>) -> Seq<char> {
    exe_dir + "/"@ + preload_lib_name()
}

/// Builds the expected path of the preload library under `exe_dir`.
pub fn candidate_path(exe_dir: &String) -> (r: String)
    ensures
        r@ == candidate_path_spec(exe_dir@),
{
    let mut path = exe_dir.clone();
    path.append("/");
    path.append("libinstrument_hooks.so");
    path
}

/// Decides whether the preload mechanism can be used.
///
/// `platform_is_unix` says whether the host supports dynamic-preload
/// injection at all; `exe_dir` is the directory of the harness executable,
/// `None` when it cannot be determined; `candidate_exists` says whether the
/// file at `candidate_path` of that directory is present.  Succeeds with the
/// library path exactly when the platform is Unix, the directory is known and
/// the candidate exists; otherwise reports which precondition failed.
pub fn locate(platform_is_unix: bool, exe_dir: Option<&String>, candidate_exists: bool) -> (r:
    Result<String, LocatorError>)
    ensures
        !platform_is_unix ==> r == Result::<String, LocatorError>::Err(
            LocatorError::UnsupportedPlatform,
        ),
        platform_is_unix && (exe_dir is None || !candidate_exists) ==> r == Result::<
            String,
            LocatorError,
        >::Err(LocatorError::NotFound),
        (r is Ok) <==> (platform_is_unix && exe_dir is Some && candidate_exists),
        r matches Ok(path) ==> (exe_dir matches Some(d) && path@ == candidate_path_spec(d@)),
{
    if !platform_is_unix {
        return Err(LocatorError::UnsupportedPlatform);
    }
    match exe_dir {
        None => Err(LocatorError::NotFound),
        Some(dir) => {
            if candidate_exists {
                Ok(candidate_path(dir))
            } else {
                Err(LocatorError::NotFound)
            }
        },
    }
}

} // verus!
