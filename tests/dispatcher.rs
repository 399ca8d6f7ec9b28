use lol_html::{
    AttributeOutline, CaptureFlags, Chunk, ContentType, Dispatcher, ElementModifiersInfo,
    ElementStartResponse, LexemeKind, NonTagContentLexeme, NonTagContentTokenOutline,
    ParserDirective, Range, RewritingError, TagHint, TagLexeme, TagNameInfo, TagTokenOutline,
    Token, TransformController,
};

/// A controller with no handlers at all.
struct NoHandlers;

impl TransformController for NoHandlers {
    fn document_level_content_settings(&mut self) -> CaptureFlags {
        CaptureFlags::empty()
    }
    fn handle_element_start(&mut self, _input: &Chunk, _name: TagNameInfo) -> ElementStartResponse {
        ElementStartResponse::ContentSettings(CaptureFlags::empty())
    }
    fn handle_element_modifiers_info(&mut self, _input: &Chunk, _info: ElementModifiersInfo) -> CaptureFlags {
        CaptureFlags::empty()
    }
    fn handle_element_end(&mut self, _input: &Chunk, _name: TagNameInfo) -> CaptureFlags {
        CaptureFlags::empty()
    }
    fn handle_token(&mut self, _token: &mut Token) {}
}

/// Removes every `p` element that has attributes, content and all.
#[derive(Default)]
struct RemoveAttributedP {
    removing: bool,
    starts_seen: Vec<Vec<u8>>,
}

fn name_of(input: &Chunk, name: Range) -> Vec<u8> {
    input.as_bytes()[name.start..name.end].to_vec()
}

impl TransformController for RemoveAttributedP {
    fn document_level_content_settings(&mut self) -> CaptureFlags {
        CaptureFlags::empty()
    }
    fn handle_element_start(&mut self, input: &Chunk, name: TagNameInfo) -> ElementStartResponse {
        self.starts_seen.push(name_of(input, name.name));
        if name_of(input, name.name) == b"p" {
            ElementStartResponse::RequestElementModifiersInfo
        } else {
            ElementStartResponse::ContentSettings(CaptureFlags::empty())
        }
    }
    fn handle_element_modifiers_info(&mut self, _input: &Chunk, info: ElementModifiersInfo) -> CaptureFlags {
        if info.attributes.is_empty() {
            CaptureFlags::empty()
        } else {
            self.removing = true;
            CaptureFlags { text: true, comments: true, doctype: false, start_tags: true, end_tags: false }
        }
    }
    fn handle_element_end(&mut self, _input: &Chunk, _name: TagNameInfo) -> CaptureFlags {
        if self.removing {
            CaptureFlags { text: false, comments: false, doctype: false, start_tags: false, end_tags: true }
        } else {
            CaptureFlags::empty()
        }
    }
    fn handle_token(&mut self, token: &mut Token) {
        if self.removing {
            token.remove();
            if token.kind() == LexemeKind::EndTag {
                self.removing = false;
            }
        }
    }
}

/// Captures every tag and edits `a` start tags.
struct EditEveryStartTag {
    replacement: Vec<u8>,
    after: Vec<u8>,
}

impl TransformController for EditEveryStartTag {
    fn document_level_content_settings(&mut self) -> CaptureFlags {
        CaptureFlags::empty()
    }
    fn handle_element_start(&mut self, _input: &Chunk, _name: TagNameInfo) -> ElementStartResponse {
        ElementStartResponse::ContentSettings(CaptureFlags {
            text: false,
            comments: false,
            doctype: false,
            start_tags: true,
            end_tags: false,
        })
    }
    fn handle_element_modifiers_info(&mut self, _input: &Chunk, _info: ElementModifiersInfo) -> CaptureFlags {
        CaptureFlags::empty()
    }
    fn handle_element_end(&mut self, _input: &Chunk, _name: TagNameInfo) -> CaptureFlags {
        CaptureFlags::empty()
    }
    fn handle_token(&mut self, token: &mut Token) {
        if token.kind() == LexemeKind::StartTag {
            token.replace(&self.replacement, ContentType::Html);
            token.after(&self.after, ContentType::Text);
        }
    }
}

fn r(start: usize, end: usize) -> Range {
    Range { start, end }
}

fn name_info(start: usize, end: usize) -> TagNameInfo {
    TagNameInfo { name: r(start, end), name_hash: lol_html::name_hash(&[]) }
}

fn new_dispatcher<C: TransformController>(c: C) -> Dispatcher<C, Vec<u8>> {
    Dispatcher::new(c, Vec::new(), encoding_rs::UTF_8)
}

#[test]
fn no_handlers_output_equals_input() {
    let input = Chunk::new(b"<div>hi</div>".to_vec());
    let mut d = new_dispatcher(NoHandlers);
    let dir = d.handle_tag_hint(&input, &TagHint::StartTag(name_info(1, 4)));
    assert_eq!(dir, ParserDirective::ScanForTags);
    let dir = d.handle_tag_hint(&input, &TagHint::EndTag(name_info(9, 12)));
    assert_eq!(dir, ParserDirective::ScanForTags);
    d.flush_remaining_input(&input, 0);
    assert_eq!(d.output_sink().as_slice(), b"<div>hi</div>");
    assert_eq!(d.last_consumed_lexeme_end(), 0);
}

#[test]
fn no_handlers_chunked_output_equals_input() {
    // the lexer keeps the unfinished `<di` back for the next chunk
    let first = Chunk::new(b"ab<di".to_vec());
    let second = Chunk::new(b"<div>c".to_vec());
    let mut d = new_dispatcher(NoHandlers);
    d.flush_remaining_input(&first, 3);
    d.handle_tag_hint(&second, &TagHint::StartTag(name_info(1, 4)));
    d.flush_remaining_input(&second, 0);
    assert_eq!(d.output_sink().as_slice(), b"ab<div>c");
}

#[test]
fn remove_element_with_attributes() {
    let text = b"<p class=\"x\">1</p><p>2</p>";
    let input = Chunk::new(text.to_vec());
    let mut d = new_dispatcher(RemoveAttributedP::default());
    let dir = d.handle_tag_hint(&input, &TagHint::StartTag(name_info(1, 2)));
    assert_eq!(dir, ParserDirective::Lex);
    let attrs = vec![AttributeOutline { name: r(3, 8), value: r(10, 11), raw_range: r(3, 12) }];
    let start = TagLexeme {
        raw_range: r(0, 13),
        token_outline: TagTokenOutline::StartTag { name: r(1, 2), name_hash: None, attributes: attrs, self_closing: false },
    };
    let dir = d.handle_tag(&input, &start).unwrap();
    assert_eq!(dir, ParserDirective::Lex);
    assert!(!d.capture_flags().start_tags);
    let one = NonTagContentLexeme { raw_range: r(13, 14), token_outline: NonTagContentTokenOutline::Text };
    d.handle_non_tag_content(&input, &one);
    let end = TagLexeme { raw_range: r(14, 18), token_outline: TagTokenOutline::EndTag { name: r(16, 17), name_hash: None } };
    let dir = d.handle_tag(&input, &end).unwrap();
    assert_eq!(dir, ParserDirective::ScanForTags);
    assert_eq!(d.last_consumed_lexeme_end(), 18);
    d.handle_tag_hint(&input, &TagHint::StartTag(name_info(19, 20)));
    d.handle_tag_hint(&input, &TagHint::EndTag(name_info(24, 25)));
    d.flush_remaining_input(&input, 0);
    assert_eq!(d.output_sink().as_slice(), b"<p>2</p>");
    assert_eq!(d.transform_controller().starts_seen, vec![b"p".to_vec(), b"p".to_vec()]);
}

#[test]
fn edited_start_tag_is_spliced() {
    let input = Chunk::new(b"x<a href=\"/o\">t</a>".to_vec());
    let ctl = EditEveryStartTag { replacement: b"<a href=\"/n\">".to_vec(), after: b"<".to_vec() };
    let mut d = new_dispatcher(ctl);
    let dir = d.handle_tag_hint(&input, &TagHint::StartTag(name_info(2, 3)));
    assert_eq!(dir, ParserDirective::Lex);
    let start = TagLexeme {
        raw_range: r(1, 14),
        token_outline: TagTokenOutline::StartTag { name: r(2, 3), name_hash: None, attributes: vec![], self_closing: false },
    };
    let dir = d.handle_tag(&input, &start).unwrap();
    assert_eq!(dir, ParserDirective::ScanForTags);
    assert_eq!(d.capture_flags(), CaptureFlags::empty());
    d.flush_remaining_input(&input, 0);
    assert_eq!(d.output_sink().as_slice(), b"x<a href=\"/n\">&lt;t</a>");
}

#[test]
fn end_tag_after_deferred_start_is_ambiguous() {
    let input = Chunk::new(b"<p></p>".to_vec());
    let mut d = new_dispatcher(RemoveAttributedP::default());
    assert_eq!(d.handle_tag_hint(&input, &TagHint::StartTag(name_info(1, 2))), ParserDirective::Lex);
    let end = TagLexeme { raw_range: r(3, 7), token_outline: TagTokenOutline::EndTag { name: r(5, 6), name_hash: None } };
    assert_eq!(d.handle_tag(&input, &end), Err(RewritingError::ParsingAmbiguity));
    assert_eq!(d.last_consumed_lexeme_end(), 0);
    assert!(d.output_sink().is_empty());
}

#[test]
fn tag_bits_clear_after_tag_lexeme() {
    let input = Chunk::new(b"<b>".to_vec());
    let ctl = EditEveryStartTag { replacement: b"<i>".to_vec(), after: vec![] };
    let mut d = new_dispatcher(ctl);
    let start = TagLexeme {
        raw_range: r(0, 3),
        token_outline: TagTokenOutline::StartTag { name: r(1, 2), name_hash: None, attributes: vec![], self_closing: false },
    };
    d.handle_tag(&input, &start).unwrap();
    let f = d.capture_flags();
    assert!(!f.start_tags && !f.end_tags);
    d.flush_remaining_input(&input, 0);
    assert_eq!(d.output_sink().as_slice(), b"<i>");
}

#[test]
fn uncaptured_lexeme_passes_through() {
    let input = Chunk::new(b"<!-- c -->".to_vec());
    let mut d = new_dispatcher(NoHandlers);
    let c = NonTagContentLexeme { raw_range: r(0, 10), token_outline: NonTagContentTokenOutline::Comment { data: r(4, 7) } };
    d.handle_non_tag_content(&input, &c);
    assert_eq!(d.last_consumed_lexeme_end(), 0);
    assert!(d.output_sink().is_empty());
    d.flush_remaining_input(&input, 0);
    assert_eq!(d.output_sink().as_slice(), b"<!-- c -->");
}

/// Captures everything document-wide and defers every start decision.
struct DeferEverything;

impl TransformController for DeferEverything {
    fn document_level_content_settings(&mut self) -> CaptureFlags {
        CaptureFlags::all()
    }
    fn handle_element_start(&mut self, _input: &Chunk, _name: TagNameInfo) -> ElementStartResponse {
        ElementStartResponse::RequestElementModifiersInfo
    }
    fn handle_element_modifiers_info(&mut self, _input: &Chunk, _info: ElementModifiersInfo) -> CaptureFlags {
        CaptureFlags::all()
    }
    fn handle_element_end(&mut self, _input: &Chunk, _name: TagNameInfo) -> CaptureFlags {
        CaptureFlags::all()
    }
    fn handle_token(&mut self, _token: &mut Token) {}
}

#[test]
fn initial_flags_are_document_settings() {
    let d = new_dispatcher(DeferEverything);
    assert_eq!(d.capture_flags(), CaptureFlags::all());
}

#[test]
fn tag_bits_clear_on_ambiguity() {
    let input = Chunk::new(b"</p>".to_vec());
    let mut d = new_dispatcher(DeferEverything);
    assert_eq!(d.handle_tag_hint(&input, &TagHint::StartTag(name_info(1, 2))), ParserDirective::Lex);
    let end = TagLexeme { raw_range: r(0, 4), token_outline: TagTokenOutline::EndTag { name: r(2, 3), name_hash: None } };
    assert_eq!(d.handle_tag(&input, &end), Err(RewritingError::ParsingAmbiguity));
    let f = d.capture_flags();
    assert!(!f.start_tags && !f.end_tags);
    assert!(f.text && f.comments && f.doctype);
}

#[test]
fn deferred_start_after_unlexed_hint_asks_for_modifiers() {
    let text = b"<div><p a>1</p>";
    let input = Chunk::new(text.to_vec());
    let mut d = new_dispatcher(RemoveAttributedP::default());
    // the hint for `div` sets flags for a lexeme that never comes
    assert_eq!(d.handle_tag_hint(&input, &TagHint::StartTag(name_info(1, 4))), ParserDirective::ScanForTags);
    assert_eq!(d.handle_tag_hint(&input, &TagHint::StartTag(name_info(6, 7))), ParserDirective::Lex);
    let attrs = vec![AttributeOutline { name: r(8, 9), value: r(9, 9), raw_range: r(8, 9) }];
    let start = TagLexeme {
        raw_range: r(5, 10),
        token_outline: TagTokenOutline::StartTag { name: r(6, 7), name_hash: None, attributes: attrs, self_closing: false },
    };
    assert_eq!(d.handle_tag(&input, &start), Ok(ParserDirective::Lex));
    let one = NonTagContentLexeme { raw_range: r(10, 11), token_outline: NonTagContentTokenOutline::Text };
    d.handle_non_tag_content(&input, &one);
    let end = TagLexeme { raw_range: r(11, 15), token_outline: TagTokenOutline::EndTag { name: r(13, 14), name_hash: None } };
    assert_eq!(d.handle_tag(&input, &end), Ok(ParserDirective::ScanForTags));
    d.flush_remaining_input(&input, 0);
    assert_eq!(d.output_sink().as_slice(), b"<div>");
}

#[test]
fn handlers_after_write_refused() {
    assert_eq!(lol_html::check_handlers_addable(false), Ok(()));
    assert_eq!(lol_html::check_handlers_addable(true), Err(RewritingError::HandlersAddedAfterWrite));
}

#[test]
fn blocked_unfinished_tag_emits_nothing() {
    let first = Chunk::new(b"<a href=\"".to_vec());
    let mut d = new_dispatcher(NoHandlers);
    d.flush_remaining_input(&first, 9);
    assert!(d.output_sink().is_empty());
    assert_eq!(d.last_consumed_lexeme_end(), 0);
}

#[test]
fn pending_request_survives_end_hint() {
    let input = Chunk::new(b"<p a></b>".to_vec());
    let mut d = new_dispatcher(RemoveAttributedP::default());
    assert_eq!(d.handle_tag_hint(&input, &TagHint::StartTag(name_info(1, 2))), ParserDirective::Lex);
    // an end hint with flags of its own leaves the request standing
    d.handle_tag_hint(&input, &TagHint::EndTag(name_info(7, 8)));
    let end = TagLexeme { raw_range: r(5, 9), token_outline: TagTokenOutline::EndTag { name: r(7, 8), name_hash: None } };
    assert_eq!(d.handle_tag(&input, &end), Ok(ParserDirective::ScanForTags));
    let start = TagLexeme {
        raw_range: r(0, 5),
        token_outline: TagTokenOutline::StartTag {
            name: r(1, 2),
            name_hash: None,
            attributes: vec![AttributeOutline { name: r(3, 4), value: r(4, 4), raw_range: r(3, 4) }],
            self_closing: false,
        },
    };
    assert!(d.handle_tag(&input, &start).is_ok());
    assert!(d.transform_controller().removing);
}
