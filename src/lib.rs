//! Safe, verified model of the libddcutil monitor-control interface.
//!
//! The library holds the decisions of the wrapper layer: how native status
//! codes become chained errors, how a display moves from identifier to open
//! handle and back, the 256-bit feature set, and the decoders for the byte
//! layouts that the native layer hands back.
mod capabilities;
mod codec;
mod display;
mod display_info;
mod err;
mod feature_metadata;
mod feature_set;
mod options;
mod text;
mod version;

pub use capabilities::{CapVcp, DisplayCapabilities, listed_codes};
pub use codec::{
    MAX_TABLE_BYTES, NonTableValue, RawTable, TableValue, be_combine, decode_non_table,
    encode_non_table, encode_table, hi_byte, lemma_non_table_round_trip, lemma_table_round_trip,
    lo_byte, raw_bytes, readable_count, readable_len, table_view,
};
pub use display::{
    Action, Display, DisplayIdentifier, Event, Stage, handle_held, identifier_held,
    lemma_caller_holds_no_identifier, lemma_handle_closed_once, lemma_identifier_freed_once,
    lemma_reopen_after_close, lemma_resolution_outcome, reference_held, transition,
};
pub use display_info::{
    DisplayInfo, DisplayInfoList, DisplayPath, DisplayRef, IO_MODE_I2C, IO_MODE_USB, field_text,
    text_view,
};
pub use err::{
    ConvertToAnyhow, DDCRC_OK, DdcError, ErrorCause, ErrorDetail, PendingError, Result,
    cause_line, cause_lines, kept_detail, lemma_stale_detail_rejected, report, text_or_na,
};
pub use feature_metadata::{
    FeatureMetadata, FeatureValue, MAX_SL_VALUES, entries_before_terminator, is_terminator,
    lemma_scan_stops_at_terminator, needs_more_values, scan_values, value_name_text,
};
pub use feature_set::{
    FeatureSet, byte_has, lemma_eq_iff_same_codes, lemma_operator_results, marks, set_holding,
};
pub use options::{
    BUILT_WITH_FAILSIM, BUILT_WITH_USB, BuildOptionFlags, INIT_OPTIONS_CLIENT_OPENED_SYSLOG,
    INIT_OPTIONS_DISABLE_CONFIG_FILE, INIT_OPTIONS_ENABLE_INIT_MSGS, INIT_OPTIONS_NONE,
    LibInitOpts,
};
pub use text::{
    c_field_len, c_field_text, choose_end, decimal, digit_char, push_signed, signed_decimal,
    utf8_text,
};
pub use version::MccsVersion;
