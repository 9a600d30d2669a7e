//! A verified library behind an editor "slash command" named `r` that reads a
//! URL through the Jina Reader proxy (`https://r.jina.ai/<url>`).
//!
//! The library holds everything about the command that can be stated and
//! proved: argument validation, construction of the fetch target, the exact
//! error messages, the decoding of a raw response body, the parsing of the
//! JSON envelope `{"text": "..."}`, and the shape of the command output.
//! The HTTP request itself is I/O and stays with the caller, which hands the
//! transport outcome back in as a plain value.

mod envelope;
mod handler;
mod output;
mod raw_text;
mod slot;

pub use envelope::{
    envelope_text_bytes, parse_envelope, parse_failure_prefix, request_failure_prefix,
    spec_envelope_text, task_outcome,
};
pub use handler::{
    fetch_target, handle_fetched, missing_url_message, placeholder_text, reader_label,
    reader_prefix, sync_output, unknown_command_message, validate, JinaReaderExtension,
    SlashCommand,
};
pub use output::{output_well_formed, section_within, CommandOutput, OutputSection};
pub use raw_text::{
    decode_failure_prefix, raw_fetch_text, sync_fetch_result, transport_failure_prefix,
};
pub use slot::ResultSlot;
