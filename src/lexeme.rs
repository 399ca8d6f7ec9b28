use vstd::prelude::*;
use crate::base::Range;
use crate::capture::LexemeKind;

verus! {

/// The name of a tag, as a range into the chunk, with its fingerprint when
/// the name is short and plain enough to have one.
#[derive(Clone, Copy, Debug, PartialEq, Eq, Structural)]
pub struct TagNameInfo {
    pub name: Range,
    pub name_hash: Option<u64>,
}

/// The ranges of one attribute of a start tag.
#[derive(Clone, Copy, Debug, PartialEq, Eq, Structural)]
pub struct AttributeOutline {
    pub name: Range,
    pub value: Range,
    pub raw_range: Range,
}

pub enum TagTokenOutline {
    StartTag { name: Range, name_hash: Option<u64>, attributes: Vec<AttributeOutline>, self_closing: bool },
    EndTag { name: Range, name_hash: Option<u64> },
}

#[derive(Clone, Copy, Debug, PartialEq, Eq, Structural)]
pub enum NonTagContentTokenOutline {
    Text,
    Comment { data: Range },
    Doctype { name: Option<Range>, public_id: Option<Range>, system_id: Option<Range>, force_quirks: bool },
    Eof,
}

/// A tag lexeme: its raw bytes in the chunk and its outline.
pub struct TagLexeme {
    pub raw_range: Range,
    pub token_outline: TagTokenOutline,
}

/// Any other lexeme: text, comment, doctype or the end of input.
pub struct NonTagContentLexeme {
    pub raw_range: Range,
    pub token_outline: NonTagContentTokenOutline,
}

/// What the tag scanner reports of a tag: its kind and name only.
#[derive(Clone, Copy, Debug, PartialEq, Eq, Structural)]
pub enum TagHint {
    StartTag(TagNameInfo),
    EndTag(TagNameInfo),
}

impl TagLexeme {
    pub open spec fn spec_kind(&self) -> LexemeKind {
        match self.token_outline {
            TagTokenOutline::StartTag { .. } => LexemeKind::StartTag,
            TagTokenOutline::EndTag { .. } => LexemeKind::EndTag,
        }
    }

    pub fn kind(&self) -> (r: LexemeKind)
        ensures
            r == self.spec_kind(),
    {
        match self.token_outline {
            TagTokenOutline::StartTag { .. } => LexemeKind::StartTag,
            TagTokenOutline::EndTag { .. } => LexemeKind::EndTag,
        }
    }
}

impl NonTagContentLexeme {
    pub open spec fn spec_kind(&self) -> LexemeKind {
        match self.token_outline {
            NonTagContentTokenOutline::Text => LexemeKind::Text,
            NonTagContentTokenOutline::Comment { .. } => LexemeKind::Comment,
            NonTagContentTokenOutline::Doctype { .. } => LexemeKind::Doctype,
            NonTagContentTokenOutline::Eof => LexemeKind::Eof,
        }
    }

    pub fn kind(&self) -> (r: LexemeKind)
        ensures
            r == self.spec_kind(),
    {
        match self.token_outline {
            NonTagContentTokenOutline::Text => LexemeKind::Text,
            NonTagContentTokenOutline::Comment { .. } => LexemeKind::Comment,
            NonTagContentTokenOutline::Doctype { .. } => LexemeKind::Doctype,
            NonTagContentTokenOutline::Eof => LexemeKind::Eof,
        }
    }
}

} // verus!
