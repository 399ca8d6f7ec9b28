use vstd::prelude::*;

verus! {

/// The kinds of lexeme that the lexer hands to the dispatcher.
#[derive(Clone, Copy, Debug, PartialEq, Eq, Structural)]
pub enum LexemeKind {
    Text,
    Comment,
    Doctype,
    StartTag,
    EndTag,
    Eof,
}

/// Which lexeme kinds the token capturer upgrades to full tokens.
#[derive(Clone, Copy, Debug, PartialEq, Eq, Structural)]
pub struct CaptureFlags {
    pub text: bool,
    pub comments: bool,
    pub doctype: bool,
    pub start_tags: bool,
    pub end_tags: bool,
}

impl CaptureFlags {
    /// Whether a lexeme of `kind` is captured under these flags.
    pub open spec fn spec_captures(self, kind: LexemeKind) -> bool {
        match kind {
            LexemeKind::Text => self.text,
            LexemeKind::Comment => self.comments,
            LexemeKind::Doctype => self.doctype,
            LexemeKind::StartTag => self.start_tags,
            LexemeKind::EndTag => self.end_tags,
            LexemeKind::Eof => false,
        }
    }

    pub open spec fn spec_is_empty(self) -> bool {
        !self.text && !self.comments && !self.doctype && !self.start_tags && !self.end_tags
    }

    /// The same flags with both tag bits cleared.
    pub open spec fn spec_without_tags(self) -> CaptureFlags {
        CaptureFlags { start_tags: false, end_tags: false, ..self }
    }

    pub fn empty() -> (r: CaptureFlags)
        ensures
            r.spec_is_empty(),
    {
        CaptureFlags { text: false, comments: false, doctype: false, start_tags: false, end_tags: false }
    }

    pub fn all() -> (r: CaptureFlags)
        ensures
            r.text && r.comments && r.doctype && r.start_tags && r.end_tags,
    {
        CaptureFlags { text: true, comments: true, doctype: true, start_tags: true, end_tags: true }
    }

    pub fn is_empty(&self) -> (r: bool)
        ensures
            r == self.spec_is_empty(),
    {
        !self.text && !self.comments && !self.doctype && !self.start_tags && !self.end_tags
    }

    pub fn captures(&self, kind: LexemeKind) -> (r: bool)
        ensures
            r == self.spec_captures(kind),
    {
        match kind {
            LexemeKind::Text => self.text,
            LexemeKind::Comment => self.comments,
            LexemeKind::Doctype => self.doctype,
            LexemeKind::StartTag => self.start_tags,
            LexemeKind::EndTag => self.end_tags,
            LexemeKind::Eof => false,
        }
    }

    pub fn without_tags(&self) -> (r: CaptureFlags)
        ensures
            r == self.spec_without_tags(),
    {
        CaptureFlags { start_tags: false, end_tags: false, ..*self }
    }
}

/// What the dispatcher asks of the lexer for the next span of input.
#[derive(Clone, Copy, Debug, PartialEq, Eq, Structural)]
pub enum ParserDirective {
    ScanForTags,
    Lex,
}

/// Full lexing is needed exactly while something is captured.
pub open spec fn directive_for(flags: CaptureFlags) -> ParserDirective {
    if flags.spec_is_empty() {
        ParserDirective::ScanForTags
    } else {
        ParserDirective::Lex
    }
}

pub fn next_parser_directive(flags: &CaptureFlags) -> (r: ParserDirective)
    ensures
        r == directive_for(*flags),
{
    if flags.is_empty() {
        ParserDirective::ScanForTags
    } else {
        ParserDirective::Lex
    }
}

} // verus!
