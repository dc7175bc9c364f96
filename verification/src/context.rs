use vstd::prelude::*;
use crate::errors::DllError;
use crate::version::{Version, decode_version, spec_decode_version};

verus! {

/// What the embedding program observed of the native library once the OS
/// loader accepted it: an opaque handle token, and the integer version
/// code the library reports through its version-query export.
#[derive(Clone, Copy, Debug, PartialEq, Eq, Structural)]
pub struct LoadedLibrary {
    pub handle: usize,
    pub version_code: u64,
}

/// The outcome of the embedding program's one attempt to make the native
/// library available.  The library itself never touches the filesystem or
/// the OS loader; it is handed this report and decides from it.
#[derive(Debug, Clone)]
pub enum LibraryReport {
    /// No candidate path existed on disk, so no load was attempted.
    Unavailable,
    /// The OS loader rejected the library; carries its diagnostic.
    LoadFailed(String),
    /// The library was loaded and reported its version code.
    Loaded(LoadedLibrary),
}

/// The binding's shared state: the version the binding is committed to,
/// the cached handle of the loaded library, and whether version-gated
/// initialization has succeeded.
///
/// The presence of the cached handle is itself the load-once condition:
/// while a handle is cached no further OS-level load is requested, and an
/// explicit cleanup clears it so that a clean reload is possible.
#[derive(Debug, Clone, PartialEq)]
pub struct DllContext {
    /// The version this context requires, and holds once initialized.
    pub version: Version,
    /// The loaded native library, if any.
    pub handle: Option<LoadedLibrary>,
    /// Whether initialization (load plus version negotiation) succeeded.
    pub initialized: bool,
    /// Whether each dispatched call tears the context down afterwards.
    pub auto_cleanup: bool,
}

/// The state a fresh context starts in: version 0.1.0, nothing loaded,
/// not initialized, no automatic cleanup.
pub open spec fn spec_new_context() -> DllContext {
    DllContext {
        version: Version { major: 0, minor: 1, patch: 0 },
        handle: None,
        initialized: false,
        auto_cleanup: false,
    }
}

impl DllContext {
    /// An initialized context is consistent: it holds a loaded library
    /// whose reported version decodes to the context's version.
    pub open spec fn wf(self) -> bool {
        self.initialized ==> match self.handle {
            Some(lib) => spec_decode_version(lib.version_code) == self.version,
            None => false,
        }
    }

    pub fn new() -> (ctx: DllContext)
        ensures
            ctx == spec_new_context(),
            ctx.wf(),
    {
        DllContext {
            version: Version { major: 0, minor: 1, patch: 0 },
            handle: None,
            initialized: false,
            auto_cleanup: false,
        }
    }

    /// A fresh context with the auto-cleanup policy chosen explicitly.
    pub fn with_auto_cleanup(auto_cleanup: bool) -> (ctx: DllContext)
        ensures
            ctx == (DllContext { auto_cleanup, ..spec_new_context() }),
            ctx.wf(),
    {
        DllContext {
            version: Version { major: 0, minor: 1, patch: 0 },
            handle: None,
            initialized: false,
            auto_cleanup,
        }
    }
}

impl Default for DllContext {
    fn default() -> (ctx: Self)
        ensures
            ctx == spec_new_context(),
    {
        DllContext::new()
    }
}

/// What the load path does: if a handle is already cached it succeeds at
/// once and requests nothing, otherwise the report of the one load attempt
/// decides, and a freshly loaded library is cached.
pub open spec fn spec_load(ctx: DllContext, report: LibraryReport) -> (DllContext, Result<
    (),
    DllError,
>) {
    match ctx.handle {
        Some(_) => (ctx, Ok(())),
        None => match report {
            LibraryReport::Unavailable => (ctx, Err(DllError::NotFound)),
            LibraryReport::LoadFailed(msg) => (ctx, Err(DllError::LoadError(msg))),
            LibraryReport::Loaded(lib) => (
                DllContext {
                    version: ctx.version,
                    handle: Some(lib),
                    initialized: ctx.initialized,
                    auto_cleanup: ctx.auto_cleanup,
                },
                Ok(()),
            ),
        },
    }
}

/// What version negotiation does to an uninitialized context holding the
/// loaded library `lib`: on exact match the context commits to the decoded
/// version and becomes initialized; on mismatch the library stays cached
/// but the context stays uninitialized and keeps its version.
pub open spec fn spec_negotiate(ctx: DllContext, required: Version, lib: LoadedLibrary) -> (
    DllContext,
    Result<(), DllError>,
) {
    let found = spec_decode_version(lib.version_code);
    if found == required {
        (
            DllContext {
                version: found,
                handle: Some(lib),
                initialized: true,
                auto_cleanup: ctx.auto_cleanup,
            },
            Ok(()),
        )
    } else {
        (
            DllContext {
                version: ctx.version,
                handle: Some(lib),
                initialized: false,
                auto_cleanup: ctx.auto_cleanup,
            },
            Err(DllError::VersionMismatch { expected: required, found }),
        )
    }
}

/// The full initialization transition: an already initialized context is a
/// no-op success on the same version and a non-destructive mismatch error
/// on any other; an uninitialized context loads (or reuses the cached
/// library) and then negotiates.
pub open spec fn spec_initialize(
    ctx: DllContext,
    required: Version,
    report: LibraryReport,
) -> (DllContext, Result<(), DllError>) {
    if ctx.initialized {
        if ctx.version == required {
            (ctx, Ok(()))
        } else {
            (ctx, Err(DllError::VersionMismatch { expected: required, found: ctx.version }))
        }
    } else {
        match ctx.handle {
            Some(lib) => spec_negotiate(ctx, required, lib),
            None => match report {
                LibraryReport::Unavailable => (ctx, Err(DllError::NotFound)),
                LibraryReport::LoadFailed(msg) => (ctx, Err(DllError::LoadError(msg))),
                LibraryReport::Loaded(lib) => spec_negotiate(ctx, required, lib),
            },
        }
    }
}

/// What cleanup does: release the cached handle (handing it back so the
/// caller can free it) and fall back to uninitialized; with nothing loaded
/// it is a no-op.  The context keeps its version either way.
pub open spec fn spec_cleanup(ctx: DllContext) -> (DllContext, Option<usize>) {
    match ctx.handle {
        Some(lib) => (
            DllContext {
                version: ctx.version,
                handle: None,
                initialized: false,
                auto_cleanup: ctx.auto_cleanup,
            },
            Some(lib.handle),
        ),
        None => (ctx, None),
    }
}

/// What the version query does: load first, then decode the version code
/// of whatever library is now cached.
pub open spec fn spec_get_version(ctx: DllContext, report: LibraryReport) -> (
    DllContext,
    Result<Version, DllError>,
) {
    let (loaded, r) = spec_load(ctx, report);
    match r {
        Ok(_) => match loaded.handle {
            Some(lib) => (loaded, Ok(spec_decode_version(lib.version_code))),
            None => (loaded, Err(DllError::NotFound)),
        },
        Err(e) => (loaded, Err(e)),
    }
}

/// Make the native library's handle available in this context, loading at
/// most once: with a handle already cached nothing happens and the call
/// succeeds; otherwise the reported outcome of the embedding program's
/// load attempt decides.
pub fn load_dll(ctx: &mut DllContext, report: &LibraryReport) -> (r: Result<(), DllError>)
    ensures
        (*final(ctx), r) == spec_load(*old(ctx), *report),
        old(ctx).wf() ==> final(ctx).wf(),
{
    if ctx.handle.is_some() {
        Ok(())
    } else {
        match report {
            LibraryReport::Unavailable => Err(DllError::NotFound),
            LibraryReport::LoadFailed(msg) => Err(DllError::LoadError(msg.clone())),
            LibraryReport::Loaded(lib) => {
                ctx.handle = Some(*lib);
                Ok(())
            },
        }
    }
}

/// Check that the native library can be made available; a synonym for the
/// load path.
pub fn verify_dll(ctx: &mut DllContext, report: &LibraryReport) -> (r: Result<(), DllError>)
    ensures
        (*final(ctx), r) == spec_load(*old(ctx), *report),
        old(ctx).wf() ==> final(ctx).wf(),
{
    load_dll(ctx, report)
}

/// Compare the version reported by the loaded library against the required
/// one, committing the context on an exact match and leaving it
/// uninitialized (library still cached) on any mismatch.
pub fn negotiate_version(ctx: &mut DllContext, required: Version, lib: LoadedLibrary) -> (r:
    Result<(), DllError>)
    ensures
        (*final(ctx), r) == spec_negotiate(*old(ctx), required, lib),
        final(ctx).wf(),
{
    let found = decode_version(lib.version_code);
    if found == required {
        ctx.version = found;
        ctx.handle = Some(lib);
        ctx.initialized = true;
        Ok(())
    } else {
        ctx.handle = Some(lib);
        ctx.initialized = false;
        Err(DllError::VersionMismatch { expected: required, found })
    }
}

/// Initialize the binding for `required`: ensure the library is loaded
/// (consulting `report` only if nothing is cached yet), then negotiate the
/// version.  Re-entry on an initialized context is a no-op success for the
/// same version and a non-destructive mismatch error for any other.
pub fn initialize(ctx: &mut DllContext, required: Version, report: &LibraryReport) -> (r: Result<
    (),
    DllError,
>)
    ensures
        (*final(ctx), r) == spec_initialize(*old(ctx), required, *report),
        old(ctx).wf() ==> final(ctx).wf(),
{
    if ctx.initialized {
        if ctx.version == required {
            Ok(())
        } else {
            Err(DllError::VersionMismatch { expected: required, found: ctx.version })
        }
    } else {
        match ctx.handle {
            Some(lib) => negotiate_version(ctx, required, lib),
            None => match report {
                LibraryReport::Unavailable => Err(DllError::NotFound),
                LibraryReport::LoadFailed(msg) => Err(DllError::LoadError(msg.clone())),
                LibraryReport::Loaded(lib) => {
                    let lib = *lib;
                    negotiate_version(ctx, required, lib)
                },
            },
        }
    }
}

/// Release the loaded library, handing its handle back to the caller so
/// the caller can free it, and return the context to the uninitialized
/// state.  With nothing loaded this is a no-op.
pub fn cleanup(ctx: &mut DllContext) -> (freed: Option<usize>)
    ensures
        (*final(ctx), freed) == spec_cleanup(*old(ctx)),
        old(ctx).wf() ==> (final(ctx).wf() && !final(ctx).initialized),
{
    match ctx.handle {
        Some(lib) => {
            ctx.handle = None;
            ctx.initialized = false;
            Some(lib.handle)
        },
        None => None,
    }
}

/// Read the version of the native library: load it if necessary, then
/// decode the version code it reports.
pub fn get_version(ctx: &mut DllContext, report: &LibraryReport) -> (r: Result<Version, DllError>)
    ensures
        (*final(ctx), r) == spec_get_version(*old(ctx), *report),
        old(ctx).wf() ==> final(ctx).wf(),
{
    match load_dll(ctx, report) {
        Ok(_) => match ctx.handle {
            Some(lib) => Ok(decode_version(lib.version_code)),
            None => Err(DllError::NotFound),
        },
        Err(e) => Err(e),
    }
}

/// Idempotent initialize: when a call to `initialize` for `required`
/// succeeds, an immediately following call for the same version succeeds
/// as well, whatever it is told about the library, and leaves the context
/// exactly as the first call did: initialized at `required`.
pub proof fn lemma_initialize_idempotent(
    ctx: DllContext,
    required: Version,
    report1: LibraryReport,
    report2: LibraryReport,
)
    ensures
        ({
            let (c1, r1) = spec_initialize(ctx, required, report1);
            r1 is Ok ==> {
                &&& c1.initialized
                &&& c1.version == required
                &&& spec_initialize(c1, required, report2) == (c1, Result::<(), DllError>::Ok(()))
            }
        }),
{
}

/// A mismatched re-initialization is non-destructive: on an initialized
/// context, asking for a different version returns the mismatch, with the
/// required version as expected and the committed version as found, and
/// changes nothing.
pub proof fn lemma_mismatch_non_destructive(
    ctx: DllContext,
    required: Version,
    report: LibraryReport,
)
    requires
        ctx.initialized,
        ctx.version != required,
    ensures
        spec_initialize(ctx, required, report) == (
            ctx,
            Result::<(), DllError>::Err(
                DllError::VersionMismatch { expected: required, found: ctx.version },
            ),
        ),
{
}

/// Load-once: while a handle is cached, the load path succeeds without
/// consulting the report and without changing anything, so no second
/// OS-level load is ever requested and every caller arriving after the
/// first successful load observes the same outcome.
pub proof fn lemma_load_once(ctx: DllContext, report: LibraryReport)
    requires
        ctx.handle is Some,
    ensures
        spec_load(ctx, report) == (ctx, Result::<(), DllError>::Ok(())),
{
}

/// Every successful pass through the load path leaves a handle cached, so
/// `lemma_load_once` applies to all subsequent loads.
pub proof fn lemma_load_caches_handle(ctx: DllContext, report: LibraryReport)
    ensures
        ({
            let (c1, r) = spec_load(ctx, report);
            r is Ok ==> c1.handle is Some
        }),
{
}

/// Cleanup resets state: cleaning up an initialized context hands back the
/// handle and leaves the context uninitialized with nothing cached, and a
/// subsequent initialize for the same version, given a library reporting
/// that version, succeeds and re-establishes it.
pub proof fn lemma_cleanup_then_initialize(ctx: DllContext, lib: LoadedLibrary)
    requires
        ctx.initialized,
        ctx.wf(),
        spec_decode_version(lib.version_code) == ctx.version,
    ensures
        ({
            let (c1, freed) = spec_cleanup(ctx);
            &&& !c1.initialized
            &&& c1.handle is None
            &&& freed is Some
            &&& ({
                let (c2, r2) = spec_initialize(c1, ctx.version, LibraryReport::Loaded(lib));
                &&& r2 is Ok
                &&& c2.initialized
                &&& c2.version == ctx.version
                &&& c2.handle == Some(lib)
            })
        }),
{
}

/// With no library available, loading, initializing and querying the
/// version all fail with `NotFound` before any load is attempted, and the
/// context is left untouched.
pub proof fn lemma_unavailable_reports_not_found(ctx: DllContext, required: Version)
    requires
        ctx.handle is None,
        !ctx.initialized,
    ensures
        spec_load(ctx, LibraryReport::Unavailable) == (
            ctx,
            Result::<(), DllError>::Err(DllError::NotFound),
        ),
        spec_initialize(ctx, required, LibraryReport::Unavailable) == (
            ctx,
            Result::<(), DllError>::Err(DllError::NotFound),
        ),
        spec_get_version(ctx, LibraryReport::Unavailable) == (
            ctx,
            Result::<Version, DllError>::Err(DllError::NotFound),
        ),
{
}

} // verus!
