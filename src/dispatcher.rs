use vstd::prelude::*;
use crate::base::{Chunk, Range};
use crate::capture::{directive_for, next_parser_directive, CaptureFlags, LexemeKind, ParserDirective};
use crate::capturer::TokenCapturer;
use crate::controller::{ControllerCall, ElementModifiersInfo, ElementStartResponse, TransformController};
use crate::lexeme::{AttributeOutline, NonTagContentLexeme, TagHint, TagLexeme, TagNameInfo, TagTokenOutline};
use crate::token::{push_all, MutationsModel};
use encoding_rs::Encoding;

verus! {

/// Where the rewritten bytes go. Its model is everything it has received.
pub trait OutputSink {
    /// An impl that is verified keeps its own record; one written outside
    /// the verifier is taken at its word to receive what it is handed.
    closed spec fn received(&self) -> Seq<u8> {
        Seq::empty()
    }

    fn handle_chunk(&mut self, chunk: &[u8])
        ensures
            final(self).received() == old(self).received() + chunk@,
    ;
}

impl OutputSink for Vec<u8> {
    open spec fn received(&self) -> Seq<u8> {
        self@
    }

    fn handle_chunk(&mut self, chunk: &[u8]) {
        push_all(self, chunk);
    }
}

/// Errors of configuration and of a running stream.
#[derive(Clone, Copy, Debug, PartialEq, Eq, Structural)]
pub enum RewritingError {
    /// A deferred start-of-element decision met a tag that is no start tag.
    ParsingAmbiguity,
    /// The retained input would outgrow the memory allowed for it.
    MemoryLimitExceeded,
    /// Handlers were added after the rewriter had started.
    HandlersAddedAfterWrite,
}

/// Handlers can be added only until the rewriter has been built.
pub fn check_handlers_addable(constructed: bool) -> (r: Result<(), RewritingError>)
    ensures
        r is Err <==> constructed,
        r is Err ==> r == Err::<(), RewritingError>(RewritingError::HandlersAddedAfterWrite),
{
    if constructed {
        Err(RewritingError::HandlersAddedAfterWrite)
    } else {
        Ok(())
    }
}

/// The bytes that settle a consumed lexeme at `range`: the untouched input
/// since `last`, then the lexeme's own bytes under the edits `m`.
pub open spec fn splice_step(input: Seq<u8>, last: int, range: Range, m: MutationsModel) -> Seq<u8> {
    input.subrange(last, range.start as int) + m.apply(input.subrange(range.start as int, range.end as int))
}

/// How one lexeme of `kind` at `range` moves the consumed offset from
/// `last0` to `last1`, the output from `out0` to `out1` and the controller
/// log from `calls0` to `calls1` under `flags`. A captured lexeme is handed
/// to the controller as a token once, and the input up to its end is
/// settled: the untouched bytes, then the token under the edits the
/// controller made. Any other lexeme leaves all three alone, its bytes to
/// pass through.
pub open spec fn dispatched(
    flags: CaptureFlags,
    kind: LexemeKind,
    input: Seq<u8>,
    range: Range,
    last0: nat,
    last1: nat,
    out0: Seq<u8>,
    out1: Seq<u8>,
    calls0: Seq<ControllerCall>,
    calls1: Seq<ControllerCall>,
) -> bool {
    if flags.spec_captures(kind) {
        &&& last1 == range.end
        &&& calls1.len() == calls0.len() + 1
        &&& calls1.drop_last() == calls0
        &&& match calls1.last() {
            ControllerCall::Token { kind: k, raw, edits } => {
                &&& k == kind
                &&& raw == input.subrange(range.start as int, range.end as int)
                &&& out1 == out0 + splice_step(input, last0 as int, range, edits)
            },
            _ => false,
        }
    } else {
        last1 == last0 && out1 == out0 && calls1 == calls0
    }
}

/// The controller calls that decide the capture flags `f` of a tag lexeme
/// that no tag hint has settled: a pending request is answered with the
/// lexeme's attributes; otherwise the start of the element is reported,
/// and answered either by flags or by a request that is answered at once,
/// or the end of the element is reported.
pub open spec fn tag_decision(
    pending: bool,
    lexeme: TagLexeme,
    calls0: Seq<ControllerCall>,
    calls1: Seq<ControllerCall>,
    f: CaptureFlags,
) -> bool {
    match lexeme.token_outline {
        TagTokenOutline::StartTag { name, name_hash, attributes, self_closing } => {
            let info = TagNameInfo { name, name_hash };
            let modifiers = ControllerCall::ElementModifiers {
                attributes: attributes@,
                self_closing,
                answer: f,
            };
            if pending {
                calls1 == calls0.push(modifiers)
            } else {
                ||| calls1 == calls0.push(
                    ControllerCall::ElementStart {
                        name_info: info,
                        response: ElementStartResponse::ContentSettings(f),
                    },
                )
                ||| calls1 == calls0.push(
                    ControllerCall::ElementStart {
                        name_info: info,
                        response: ElementStartResponse::RequestElementModifiersInfo,
                    },
                ).push(modifiers)
            }
        },
        TagTokenOutline::EndTag { name, name_hash } => {
            !pending && calls1 == calls0.push(
                ControllerCall::ElementEnd { name_info: TagNameInfo { name, name_hash }, answer: f },
            )
        },
    }
}

fn copy_attributes(a: &Vec<AttributeOutline>) -> (r: Vec<AttributeOutline>)
    ensures
        r@ == a@,
{
    let mut out: Vec<AttributeOutline> = Vec::new();
    let mut i: usize = 0;
    while i < a.len()
        invariant
            i <= a@.len(),
            out@ == a@.subrange(0, i as int),
        decreases a@.len() - i,
    {
        out.push(a[i]);
        i = i + 1;
        assert(out@ =~= a@.subrange(0, i as int));
    }
    assert(a@.subrange(0, a@.len() as int) =~= a@);
    out
}

/// Turns lexer output into output bytes, asking the controller what to
/// capture and letting it edit the tokens.
pub struct Dispatcher<C: TransformController, O: OutputSink> {
    transform_controller: C,
    output_sink: O,
    last_consumed_lexeme_end: usize,
    token_capturer: TokenCapturer,
    got_capture_flags_from_tag_hint: bool,
    pending_element_modifiers_info_handler: bool,
}

impl<C: TransformController, O: OutputSink> Dispatcher<C, O> {
    /// Offset in the current chunk up to which the input is settled.
    pub closed spec fn last(&self) -> nat {
        self.last_consumed_lexeme_end as nat
    }

    pub closed spec fn flags(&self) -> CaptureFlags {
        self.token_capturer.flags()
    }

    /// The flags in force were set by a tag hint, for the tag's lexeme.
    pub closed spec fn got_hint_flags(&self) -> bool {
        self.got_capture_flags_from_tag_hint
    }

    /// The controller asked to see the attributes of the tag being lexed.
    pub closed spec fn pending(&self) -> bool {
        self.pending_element_modifiers_info_handler
    }

    /// Everything the output sink has received, in order.
    pub closed spec fn emitted(&self) -> Seq<u8> {
        self.output_sink.received()
    }

    /// Every call made to the controller, in order.
    pub closed spec fn calls(&self) -> Seq<ControllerCall> {
        self.transform_controller.log()
    }

    pub fn new(transform_controller: C, output_sink: O, encoding: &'static Encoding) -> (r: Self)
        ensures
            r.last() == 0,
            !r.got_hint_flags(),
            !r.pending(),
            r.emitted() == output_sink.received(),
            r.calls() == transform_controller.log().push(ControllerCall::DocumentSettings { answer: r.flags() }),
    {
        let mut transform_controller = transform_controller;
        let initial_capture_flags = transform_controller.document_level_content_settings();
        Dispatcher {
            transform_controller,
            output_sink,
            last_consumed_lexeme_end: 0,
            token_capturer: TokenCapturer::new(initial_capture_flags, encoding),
            got_capture_flags_from_tag_hint: false,
            pending_element_modifiers_info_handler: false,
        }
    }

    pub fn capture_flags(&self) -> (r: CaptureFlags)
        ensures
            r == self.flags(),
    {
        self.token_capturer.capture_flags()
    }

    pub fn last_consumed_lexeme_end(&self) -> (r: usize)
        ensures
            r == self.last(),
    {
        self.last_consumed_lexeme_end
    }

    pub fn output_sink(&self) -> (r: &O)
        ensures
            r.received() == self.emitted(),
    {
        &self.output_sink
    }

    pub fn transform_controller(&self) -> (r: &C)
        ensures
            r.log() == self.calls(),
    {
        &self.transform_controller
    }

    /// Hands on the unsettled rest of the chunk, but for the last
    /// `blocked_byte_count` bytes that the lexer keeps for the next chunk,
    /// and starts the next chunk at offset zero.
    pub fn flush_remaining_input(&mut self, input: &Chunk, blocked_byte_count: usize)
        requires
            blocked_byte_count <= input@.len(),
            old(self).last() <= input@.len() - blocked_byte_count,
        ensures
            final(self).last() == 0,
            final(self).emitted() == old(self).emitted() + input@.subrange(
                old(self).last() as int,
                input@.len() - blocked_byte_count,
            ),
            final(self).calls() == old(self).calls(),
            final(self).flags() == old(self).flags(),
            final(self).got_hint_flags() == old(self).got_hint_flags(),
            final(self).pending() == old(self).pending(),
    {
        let output = input.slice(
            Range { start: self.last_consumed_lexeme_end, end: input.len() - blocked_byte_count },
        );
        if output.len() > 0 {
            self.output_sink.handle_chunk(output.as_slice());
        }
        self.last_consumed_lexeme_end = 0;
    }

    fn try_produce_token_from_lexeme(&mut self, input: &Chunk, range: Range, kind: LexemeKind)
        requires
            range.within(input@.len()),
            old(self).last() <= range.start,
        ensures
            dispatched(
                old(self).flags(),
                kind,
                input@,
                range,
                old(self).last(),
                final(self).last(),
                old(self).emitted(),
                final(self).emitted(),
                old(self).calls(),
                final(self).calls(),
            ),
            final(self).flags() == old(self).flags(),
            final(self).got_hint_flags() == old(self).got_hint_flags(),
            final(self).pending() == old(self).pending(),
    {
        let last_consumed_lexeme_end = self.last_consumed_lexeme_end;
        let ghost out0 = self.emitted();
        let ghost calls0 = self.calls();
        match self.token_capturer.feed(input, range, kind) {
            Some(mut token) => {
                let chunk = input.slice(Range { start: last_consumed_lexeme_end, end: range.start });
                self.output_sink.handle_chunk(chunk.as_slice());
                self.transform_controller.handle_token(&mut token);
                let raw = input.slice(range);
                let bytes = token.mutations().apply(raw.as_slice());
                self.output_sink.handle_chunk(bytes.as_slice());
                let ghost m = token.spec_mutations();
                assert(chunk@ + bytes@ == splice_step(input@, last_consumed_lexeme_end as int, range, m));
                assert(self.emitted() =~= out0 + (chunk@ + bytes@));
                assert(self.calls().drop_last() =~= calls0);
                self.last_consumed_lexeme_end = range.end;
            },
            None => {},
        }
    }

    fn adjust_capture_flags_for_tag_lexeme(&mut self, input: &Chunk, lexeme: &TagLexeme) -> (r: Result<(), RewritingError>)
        ensures
            r is Err <==> (old(self).pending() && lexeme.spec_kind() == LexemeKind::EndTag),
            r is Err ==> r == Err::<(), RewritingError>(RewritingError::ParsingAmbiguity)
                && final(self).flags() == old(self).flags() && final(self).calls() == old(self).calls(),
            r is Ok ==> tag_decision(old(self).pending(), *lexeme, old(self).calls(), final(self).calls(), final(self).flags()),
            !final(self).pending(),
            final(self).last() == old(self).last(),
            final(self).emitted() == old(self).emitted(),
            final(self).got_hint_flags() == old(self).got_hint_flags(),
    {
        let capture_flags = if self.pending_element_modifiers_info_handler {
            // a tag hint was produced for this tag, and the controller asked
            // for its attributes and self-closing flag
            self.pending_element_modifiers_info_handler = false;
            match &lexeme.token_outline {
                TagTokenOutline::StartTag { attributes, self_closing, .. } => {
                    let info = ElementModifiersInfo { attributes: copy_attributes(attributes), self_closing: *self_closing };
                    let f = self.transform_controller.handle_element_modifiers_info(input, info);
                    f
                },
                TagTokenOutline::EndTag { .. } => {
                    return Err(RewritingError::ParsingAmbiguity);
                },
            }
        } else {
            // no tag hint was produced for this tag: the lexer was not
            // scanning for tags
            match &lexeme.token_outline {
                TagTokenOutline::StartTag { name, name_hash, attributes, self_closing } => {
                    let name_info = TagNameInfo { name: *name, name_hash: *name_hash };
                    let response = self.transform_controller.handle_element_start(input, name_info);
                    match response {
                        ElementStartResponse::ContentSettings(settings) => settings,
                        ElementStartResponse::RequestElementModifiersInfo => {
                            let info = ElementModifiersInfo { attributes: copy_attributes(attributes), self_closing: *self_closing };
                            let f = self.transform_controller.handle_element_modifiers_info(input, info);
                            f
                        },
                    }
                },
                TagTokenOutline::EndTag { name, name_hash } => {
                    let name_info = TagNameInfo { name: *name, name_hash: *name_hash };
                    let f = self.transform_controller.handle_element_end(input, name_info);
                    f
                },
            }
        };
        self.token_capturer.set_capture_flags(capture_flags);
        Ok(())
    }

    /// Dispatches a tag lexeme. Its capture flags come from the tag hint that
    /// preceded it, or else are asked of the controller now; tag capture is
    /// then switched off again, and the lexer is told to lex on exactly while
    /// something is still captured.
    pub fn handle_tag(&mut self, input: &Chunk, lexeme: &TagLexeme) -> (r: Result<ParserDirective, RewritingError>)
        requires
            lexeme.raw_range.within(input@.len()),
            old(self).last() <= lexeme.raw_range.start,
        ensures
            !final(self).flags().start_tags,
            !final(self).flags().end_tags,
            !final(self).got_hint_flags(),
            old(self).got_hint_flags() ==> final(self).pending() == old(self).pending(),
            !old(self).got_hint_flags() ==> !final(self).pending(),
            r is Err <==> (!old(self).got_hint_flags() && old(self).pending() && lexeme.spec_kind()
                == LexemeKind::EndTag),
            r is Err ==> {
                &&& r == Err::<ParserDirective, RewritingError>(RewritingError::ParsingAmbiguity)
                &&& final(self).last() == old(self).last()
                &&& final(self).emitted() == old(self).emitted()
                &&& final(self).calls() == old(self).calls()
                &&& final(self).flags() == old(self).flags().spec_without_tags()
            },
            r matches Ok(d) ==> {
                &&& d == directive_for(final(self).flags())
                &&& exists|f: CaptureFlags, mid: Seq<ControllerCall>|
                    {
                        &&& (old(self).got_hint_flags() ==> f == old(self).flags() && mid == old(self).calls())
                        &&& (!old(self).got_hint_flags() ==> tag_decision(
                            old(self).pending(),
                            *lexeme,
                            old(self).calls(),
                            mid,
                            f,
                        ))
                        &&& final(self).flags() == f.spec_without_tags()
                        &&& #[trigger] dispatched(
                            f,
                            lexeme.spec_kind(),
                            input@,
                            lexeme.raw_range,
                            old(self).last(),
                            final(self).last(),
                            old(self).emitted(),
                            final(self).emitted(),
                            mid,
                            final(self).calls(),
                        )
                    }
            },
    {
        let ghost last0 = self.last();
        let ghost out0 = self.emitted();
        if self.got_capture_flags_from_tag_hint {
            self.got_capture_flags_from_tag_hint = false;
        } else {
            match self.adjust_capture_flags_for_tag_lexeme(input, lexeme) {
                Ok(()) => {},
                Err(e) => {
                    self.token_capturer.stop_capturing_tags();
                    return Err(e);
                },
            }
        }
        let ghost f = self.flags();
        let ghost mid = self.calls();
        self.try_produce_token_from_lexeme(input, lexeme.raw_range, lexeme.kind());
        // tags are captured only for the lexeme at hand, and only when the
        // content settings asked for it
        self.token_capturer.stop_capturing_tags();
        assert(dispatched(
            f,
            lexeme.spec_kind(),
            input@,
            lexeme.raw_range,
            last0,
            self.last(),
            out0,
            self.emitted(),
            mid,
            self.calls(),
        ));
        let flags = self.token_capturer.capture_flags();
        Ok(next_parser_directive(&flags))
    }

    /// Dispatches a lexeme that is not a tag under the current flags.
    pub fn handle_non_tag_content(&mut self, input: &Chunk, lexeme: &NonTagContentLexeme)
        requires
            lexeme.raw_range.within(input@.len()),
            old(self).last() <= lexeme.raw_range.start,
        ensures
            dispatched(
                old(self).flags(),
                lexeme.spec_kind(),
                input@,
                lexeme.raw_range,
                old(self).last(),
                final(self).last(),
                old(self).emitted(),
                final(self).emitted(),
                old(self).calls(),
                final(self).calls(),
            ),
            final(self).flags() == old(self).flags(),
            final(self).got_hint_flags() == old(self).got_hint_flags(),
            final(self).pending() == old(self).pending(),
    {
        self.try_produce_token_from_lexeme(input, lexeme.raw_range, lexeme.kind());
    }

    /// Takes the capture flags for a tag that the scanner found. A start
    /// whose decision waits for the attributes asks for full lexing, and the
    /// tag's lexeme will answer the request.
    pub fn handle_tag_hint(&mut self, input: &Chunk, tag_hint: &TagHint) -> (r: ParserDirective)
        ensures
            final(self).last() == old(self).last(),
            final(self).emitted() == old(self).emitted(),
            final(self).calls().len() == old(self).calls().len() + 1,
            final(self).calls().drop_last() == old(self).calls(),
            match *tag_hint {
                TagHint::EndTag(n) => {
                    &&& final(self).calls().last() == (ControllerCall::ElementEnd { name_info: n, answer: final(self).flags() })
                    &&& final(self).got_hint_flags()
                    &&& final(self).pending() == old(self).pending()
                    &&& r == directive_for(final(self).flags())
                },
                TagHint::StartTag(n) => match final(self).calls().last() {
                    ControllerCall::ElementStart { name_info, response } => {
                        &&& name_info == n
                        &&& match response {
                            ElementStartResponse::ContentSettings(f) => {
                                &&& final(self).flags() == f
                                &&& final(self).got_hint_flags()
                                &&& final(self).pending() == old(self).pending()
                                &&& r == directive_for(f)
                            },
                            ElementStartResponse::RequestElementModifiersInfo => {
                                &&& final(self).pending()
                                &&& !final(self).got_hint_flags()
                                &&& final(self).flags() == old(self).flags()
                                &&& r == ParserDirective::Lex
                            },
                        }
                    },
                    _ => false,
                },
            },
    {
        let capture_flags = match *tag_hint {
            TagHint::StartTag(name_info) => {
                let response = self.transform_controller.handle_element_start(input, name_info);
                match response {
                    ElementStartResponse::ContentSettings(settings) => settings,
                    ElementStartResponse::RequestElementModifiersInfo => {
                        self.pending_element_modifiers_info_handler = true;
                        self.got_capture_flags_from_tag_hint = false;
                        return ParserDirective::Lex;
                    },
                }
            },
            TagHint::EndTag(name_info) => self.transform_controller.handle_element_end(input, name_info),
        };
        self.token_capturer.set_capture_flags(capture_flags);
        self.got_capture_flags_from_tag_hint = true;
        let flags = self.token_capturer.capture_flags();
        next_parser_directive(&flags)
    }
}

} // verus!
