use vstd::prelude::*;

verus! {

/// Observability state for the dispatch surface: call and error counters,
/// a gauge for whether the library is loaded, and the bookkeeping for
/// installing an exporter once.  Emitting these to a metrics backend is
/// the embedding program's business and is fire-and-forget — a failure to
/// emit never alters the library's control flow.
#[derive(Debug, Clone, Copy, PartialEq, Eq, Structural)]
pub struct MetricsState {
    /// Whether an exporter has been installed.
    pub initialized: bool,
    /// The port the next exporter attempt will listen on.
    pub next_port: u16,
    /// Total number of dispatched native calls.
    pub calls: u64,
    /// Total number of errors encountered.
    pub errors: u64,
    /// Whether the native library is currently loaded.
    pub dll_loaded: bool,
}

/// The state metrics start in: nothing installed, ports handed out from
/// 9000 up, all counters at zero.
pub open spec fn spec_new_metrics() -> MetricsState {
    MetricsState { initialized: false, next_port: 9000, calls: 0, errors: 0, dll_loaded: false }
}

impl MetricsState {
    pub fn new() -> (m: MetricsState)
        ensures
            m == spec_new_metrics(),
    {
        MetricsState { initialized: false, next_port: 9000, calls: 0, errors: 0, dll_loaded: false }
    }
}

/// Begin installing a metrics exporter.  Once one is installed this is a
/// no-op; otherwise the next port is claimed — consumed whether or not the
/// install that follows succeeds — and returned for the exporter to
/// listen on.
pub fn init_metrics(m: &mut MetricsState) -> (port: Option<u16>)
    ensures
        old(m).initialized ==> (*final(m) == *old(m) && port is None),
        !old(m).initialized ==> {
            &&& port == Some(old(m).next_port)
            &&& final(m).next_port == (if old(m).next_port == u16::MAX {
                0u16
            } else {
                (old(m).next_port + 1) as u16
            })
            &&& final(m).initialized == old(m).initialized
            &&& final(m).calls == old(m).calls
            &&& final(m).errors == old(m).errors
            &&& final(m).dll_loaded == old(m).dll_loaded
        },
{
    if m.initialized {
        None
    } else {
        let port = m.next_port;
        m.next_port = if m.next_port == u16::MAX {
            0
        } else {
            m.next_port + 1
        };
        Some(port)
    }
}

/// Record whether the exporter install attempt succeeded.  Only a success
/// marks metrics as initialized; after a failure a later attempt starts
/// over on a fresh port.
pub fn note_exporter_result(m: &mut MetricsState, ok: bool)
    ensures
        final(m).initialized == (old(m).initialized || ok),
        final(m).next_port == old(m).next_port,
        final(m).calls == old(m).calls,
        final(m).errors == old(m).errors,
        final(m).dll_loaded == old(m).dll_loaded,
{
    if ok {
        m.initialized = true;
    }
}

/// Count one dispatched native call.  The counter saturates rather than
/// wrap.
pub fn record_call(m: &mut MetricsState)
    ensures
        final(m).calls == (if old(m).calls == u64::MAX {
            u64::MAX
        } else {
            (old(m).calls + 1) as u64
        }),
        final(m).initialized == old(m).initialized,
        final(m).next_port == old(m).next_port,
        final(m).errors == old(m).errors,
        final(m).dll_loaded == old(m).dll_loaded,
{
    if m.calls < u64::MAX {
        m.calls = m.calls + 1;
    }
}

/// Count one error.  The counter saturates rather than wrap.
pub fn increment_errors(m: &mut MetricsState)
    ensures
        final(m).errors == (if old(m).errors == u64::MAX {
            u64::MAX
        } else {
            (old(m).errors + 1) as u64
        }),
        final(m).initialized == old(m).initialized,
        final(m).next_port == old(m).next_port,
        final(m).calls == old(m).calls,
        final(m).dll_loaded == old(m).dll_loaded,
{
    if m.errors < u64::MAX {
        m.errors = m.errors + 1;
    }
}

/// Set the gauge that reflects whether the native library is loaded.
pub fn set_dll_loaded(m: &mut MetricsState, loaded: bool)
    ensures
        final(m).dll_loaded == loaded,
        final(m).initialized == old(m).initialized,
        final(m).next_port == old(m).next_port,
        final(m).calls == old(m).calls,
        final(m).errors == old(m).errors,
{
    m.dll_loaded = loaded;
}

} // verus!
