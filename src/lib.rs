//! Supervisor for one embedded retrieval daemon: the decisions around its
//! start and stop, the marshaling of its configuration, and the translation
//! of the errors it reports.

mod config;
mod daemon;
mod start_error;
mod text;
mod time_span;

pub use config::{
    boundary_of, c_text, config_fault, config_valid, has_nul, lemma_encoded_nul, log_level_code,
    marshal, marshal_spec, marshal_view, token_bytes, BoundaryConfig, BoundaryView, ConfigView,
    DaemonConfig, LOG_LEVEL_DEBUG, LOG_LEVEL_OFF,
};
pub use daemon::{
    decode_error, lemma_error_text_round_trip, lemma_null_byte_path_refused, lemma_restart_after_stop,
    lemma_second_start_refused, lemma_settings_forwarded, start_spec, stop_failure_message,
    Daemon, Registry, StopFailure, StopFailureView,
};
pub use start_error::{error_detail, error_message, message_prefix, StartError, StartErrorView};
pub use text::{
    debug_duration, debug_path, debug_str, escape_debug_of, escaped_bytes, escaped_chars,
    escaped_chunks, hex_digit, hex_escape, lossy_utf8, path_debug_text, utf8_chunks_of,
};
pub use time_span::{TimeSpan, NANOS_PER_SEC};
