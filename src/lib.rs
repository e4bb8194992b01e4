//! Decoder for SMBIOS/DMI structure tables.
//!
//! A raw table is split into bounded structure records, each record's header
//! and string table are decoded, and every record is dispatched by its type
//! byte to a typed variant. Decoded records borrow the table's bytes; none of
//! them copies it.

mod defined;
mod envelope;
mod error;
mod parts;
mod strings;
mod table;

pub use defined::{dispatch_code, DefinedStruct, DefinedStructTable};
pub use envelope::{
    declared_length, is_valid_envelope, u32_le, version_of_header, WinSMBiosData,
};
pub use error::DecodeError;
pub use parts::{header_from_bytes, header_of, u16_le, version_at_least, Header, SMBiosStructParts};
pub use strings::{opt_slice_view, parse_strings, slices_view, split_nul, string_lookup, string_table};
pub use table::{
    consumed, find_terminator, header_fits, lemma_walk_consumes_exactly, parts_match, span_of,
    spans_of, spans_tile, total_length, walk_error, walk_error_from, walk_from, walk_spans, SMBiosData,
    SMBiosVersion, SpanModel, TableWalk,
};
