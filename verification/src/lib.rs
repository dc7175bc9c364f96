//! A safe binding layer around a dynamically loaded native library.
//!
//! The library models the full lifecycle of such a binding: locating the
//! shared library on disk, loading it at most once, negotiating its version
//! against a required version, and dispatching typed calls only through an
//! initialized context.  All decisions are made here and verified; the
//! platform work itself (filesystem probing, the OS loader, the native
//! calls) is performed by the embedding program, which reports its outcomes
//! back as plain values.

pub mod context;
pub mod dispatcher;
pub mod errors;
pub mod install;
pub mod locator;
pub mod metrics;
pub mod version;

pub use context::DllContext;
pub use context::LibraryReport;
pub use context::LoadedLibrary;
pub use context::cleanup;
pub use context::get_version;
pub use context::initialize;
pub use context::load_dll;
pub use context::negotiate_version;
pub use context::verify_dll;
pub use dispatcher::AddArgs;
pub use dispatcher::add_numbers_begin;
pub use dispatcher::add_numbers_finish;
pub use dispatcher::go_function;
pub use dispatcher::supported_version;
pub use dispatcher::with_dll_begin;
pub use dispatcher::with_dll_end;
pub use errors::DllError;
pub use install::InstallReport;
pub use install::install_dll;
pub use locator::Candidate;
pub use locator::default_candidate_locations;
pub use locator::get_dll_path;
pub use locator::is_dll_available;
pub use metrics::MetricsState;
pub use metrics::increment_errors;
pub use metrics::init_metrics;
pub use metrics::note_exporter_result;
pub use metrics::record_call;
pub use metrics::set_dll_loaded;
pub use version::Version;
pub use version::decode_version;
pub use version::u64_to_dec_string;
