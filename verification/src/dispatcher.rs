use vstd::prelude::*;
use crate::context::{
    DllContext, LibraryReport, cleanup, initialize, load_dll, spec_cleanup, spec_initialize,
    spec_load,
};
use crate::errors::DllError;
use crate::version::Version;

verus! {

/// The one version of the native contract this binding supports.
pub open spec fn spec_supported_version() -> Version {
    Version { major: 0, minor: 1, patch: 0 }
}

/// The hard-coded required version every safe operation initializes with.
pub fn supported_version() -> (v: Version)
    ensures
        v == spec_supported_version(),
{
    Version { major: 0, minor: 1, patch: 0 }
}

/// The operands of one native addition, widened to the 64-bit form the
/// native entry point takes.
#[derive(Clone, Copy, Debug, PartialEq, Eq, Structural)]
pub struct AddArgs {
    pub x: i64,
    pub y: i64,
}

/// First half of a self-contained dispatch: every safe operation begins by
/// initializing with the supported version, so each call is safe even if
/// the caller never initialized explicitly.
pub fn with_dll_begin(ctx: &mut DllContext, report: &LibraryReport) -> (r: Result<(), DllError>)
    ensures
        (*final(ctx), r) == spec_initialize(*old(ctx), spec_supported_version(), *report),
        old(ctx).wf() ==> final(ctx).wf(),
{
    initialize(ctx, supported_version(), report)
}

/// Second half of a self-contained dispatch: tear the context down again
/// if and only if the auto-cleanup policy is enabled, handing back the
/// handle the caller must free.
pub fn with_dll_end(ctx: &mut DllContext) -> (freed: Option<usize>)
    ensures
        old(ctx).auto_cleanup ==> (*final(ctx), freed) == spec_cleanup(*old(ctx)),
        !old(ctx).auto_cleanup ==> (*final(ctx) == *old(ctx) && freed is None),
        old(ctx).wf() ==> final(ctx).wf(),
{
    if ctx.auto_cleanup {
        cleanup(ctx)
    } else {
        None
    }
}

/// First half of the safe `add` operation: initialize for the supported
/// version, and on success hand back the widened operands for the native
/// call.  On any failure — no library, load rejected, version mismatch —
/// that error is surfaced unchanged and the native call is never reached.
pub fn add_numbers_begin(ctx: &mut DllContext, report: &LibraryReport, a: i32, b: i32) -> (r:
    Result<AddArgs, DllError>)
    ensures
        *final(ctx) == spec_initialize(*old(ctx), spec_supported_version(), *report).0,
        (match spec_initialize(*old(ctx), spec_supported_version(), *report).1 {
            Ok(_) => r == Ok::<AddArgs, DllError>(AddArgs { x: a as i64, y: b as i64 }),
            Err(e) => r == Err::<AddArgs, DllError>(e),
        }),
        r is Ok ==> final(ctx).initialized,
        old(ctx).wf() ==> final(ctx).wf(),
{
    match with_dll_begin(ctx, report) {
        Ok(_) => Ok(AddArgs { x: a as i64, y: b as i64 }),
        Err(e) => Err(e),
    }
}

/// Second half of the safe `add` operation: narrow the native result with
/// the same truncating cast the raw entry point's callers always used,
/// then apply the auto-cleanup policy.
pub fn add_numbers_finish(ctx: &mut DllContext, native_sum: i64) -> (r: (i32, Option<usize>))
    ensures
        r.0 == native_sum as i32,
        old(ctx).auto_cleanup ==> (*final(ctx), r.1) == spec_cleanup(*old(ctx)),
        !old(ctx).auto_cleanup ==> (*final(ctx) == *old(ctx) && r.1 is None),
        old(ctx).wf() ==> final(ctx).wf(),
{
    let result = #[verifier::truncate] (native_sum as i32);
    let freed = with_dll_end(ctx);
    (result, freed)
}

/// Safe wrapper for the native library's parameterless entry point: make
/// sure the library is loaded; on success the embedding program performs
/// the call, which returns nothing.  Errors are exactly the load path's.
pub fn go_function(ctx: &mut DllContext, report: &LibraryReport) -> (r: Result<(), DllError>)
    ensures
        (*final(ctx), r) == spec_load(*old(ctx), *report),
        old(ctx).wf() ==> final(ctx).wf(),
{
    load_dll(ctx, report)
}

} // verus!
