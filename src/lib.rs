//! Core of a streaming HTML rewriter: the dispatcher that stands between the
//! lexer and the content handlers, and decides which bytes pass through
//! verbatim and which are replaced by serialized tokens.

mod base;
mod buffer;
mod capture;
mod capturer;
mod controller;
mod dispatcher;
mod laws;
mod lexeme;
mod token;
mod tokenizer;

pub use base::{Chunk, Range};
pub use buffer::Buffer;
pub use capture::{next_parser_directive, CaptureFlags, LexemeKind, ParserDirective};
pub use capturer::TokenCapturer;
pub use controller::{ControllerCall, ElementModifiersInfo, ElementStartResponse, TransformController};
pub use lexeme::{
    AttributeOutline, NonTagContentLexeme, NonTagContentTokenOutline, TagHint, TagLexeme,
    TagNameInfo, TagTokenOutline,
};
pub use token::{encode_content, escape_text, ContentType, Mutations, MutationsModel, Token};
pub use dispatcher::{
    check_handlers_addable, dispatched, splice_step, tag_decision, Dispatcher,
    OutputSink, RewritingError,
};
pub use laws::{
    all_steps_unedited, all_unedited, chunk_output, dispatch_run, lemma_chunk_identity,
    lemma_chunking_invariance, lemma_dispatch_run_emits_chunk_output, lemma_identity_under_no_op,
    lemma_unedited_token_gives_own_bytes, settle_start, settles_in_order, stream_fits, stream_output, ChunkDispatch,
    ConsumedLexeme,
};
pub use tokenizer::{
    appropriate_end_tag, ascii_lower, data_state, ends_tag_name, folded, is_ascii_alpha,
    lemma_name_hash_perfect, name_end_from, name_hash, name_hash_of, next_name_hash, scan_tag,
    unquoted_gt_from, update_name_hash, DataStateExit, DataStateRun, TagScan,
    NAME_HASH_SHIFT_LIMIT,
};
