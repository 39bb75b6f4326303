//! Safe marshalling boundary for a dynamically loaded KQL analysis library.
//!
//! The native engine is reached through a fixed C-ABI surface; this crate
//! holds the logic around that surface: deriving the platform identity,
//! resolving the library's location on disk, deciding the load and bind
//! sequence, and running the buffer-based call protocol with its single
//! growth-and-retry step.

mod binder;
mod classification;
mod completion;
mod decode;
mod error;
mod ffi;
mod fsprobe;
mod jsontext;
mod jsonvalue;
mod numfmt;
mod platform;
mod protocol;
mod resolver;
mod runtime_root;
mod schema;
mod strutil;
mod types;
mod validator;

pub use binder::Capabilities;
pub use binder::SymbolProbe;
pub use binder::bind_symbols;
pub use binder::init_outcome;
pub use binder::load_sequence;
pub use binder::symbol_cleanup;
pub use binder::symbol_get_classifications;
pub use binder::symbol_get_completions;
pub use binder::symbol_get_last_error;
pub use binder::symbol_init;
pub use binder::symbol_validate_syntax;
pub use binder::symbol_validate_with_schema;

pub use classification::ClassificationKind;
pub use classification::ClassificationResult;
pub use classification::ClassifiedSpan;

pub use completion::CompletionItem;
pub use completion::CompletionKind;
pub use completion::CompletionResult;

pub use decode::decode_classification;
pub use decode::decode_completion;
pub use decode::decode_validation;

pub use error::Error;

pub use ffi::CallPayload;
pub use ffi::DEFAULT_BUFFER_SIZE;
pub use ffi::MAX_BUFFER_SIZE;
pub use ffi::is_buffer_too_small;
pub use ffi::is_success;

pub use jsontext::schema_to_json;

pub use numfmt::dec_of_i32;
pub use numfmt::dec_of_u64;
pub use numfmt::dec_of_usize;

pub use platform::Arch;
pub use platform::Platform;
pub use platform::current_rid;
pub use platform::lib_name;
pub use platform::override_variable_name;

pub use protocol::last_error_message;
pub use protocol::run_buffer_call;
pub use protocol::run_buffer_call_from;

pub use resolver::ProbeResults;
pub use resolver::ResolveContext;
pub use resolver::choose_library_path;
pub use resolver::find_library_path;
pub use resolver::is_available;
pub use resolver::library_path;
pub use resolver::probe_candidates;
pub use resolver::searched_paths;

pub use runtime_root::ancestor_ending_with;
pub use runtime_root::ancestor_holding_runtime;
pub use runtime_root::bytes_lt;
pub use runtime_root::parse_base_path;
pub use runtime_root::pick_version_root;
pub use runtime_root::runtime_root_candidates;
pub use runtime_root::runtime_root_from_info;
pub use runtime_root::shared_root;
pub use runtime_root::trim;

pub use schema::Column;
pub use schema::Function;
pub use schema::Parameter;
pub use schema::Schema;
pub use schema::Table;

pub use strutil::eq_ignore_ascii_case;
pub use strutil::join_path;
pub use strutil::str_contains;
pub use strutil::str_eq;

pub use types::Diagnostic;
pub use types::DiagnosticSeverity;
pub use types::ValidationResult;

pub use validator::fits_native_int;
pub use validator::get_classifications;
pub use validator::get_completions;
pub use validator::validate_syntax;
pub use validator::validate_with_schema;
