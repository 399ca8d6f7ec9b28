use vstd::prelude::*;
use crate::base::{Chunk, Range};
use crate::capture::{CaptureFlags, LexemeKind};
use crate::token::{MutationsModel, Token};
use encoding_rs::Encoding;

verus! {

/// The character encoding that text tokens are decoded with; carried
/// through, never looked into.
#[verifier::external_type_specification]
#[verifier::external_body]
pub struct ExEncoding(Encoding);

/// Upgrades lexemes to tokens, as far as the capture flags ask for it.
pub struct TokenCapturer {
    capture_flags: CaptureFlags,
    encoding: &'static Encoding,
}

impl TokenCapturer {
    pub closed spec fn flags(&self) -> CaptureFlags {
        self.capture_flags
    }

    pub fn new(capture_flags: CaptureFlags, encoding: &'static Encoding) -> (r: TokenCapturer)
        ensures
            r.flags() == capture_flags,
    {
        TokenCapturer { capture_flags, encoding }
    }

    pub fn capture_flags(&self) -> (r: CaptureFlags)
        ensures
            r == self.flags(),
    {
        self.capture_flags
    }

    pub fn encoding(&self) -> &'static Encoding {
        self.encoding
    }

    pub fn set_capture_flags(&mut self, flags: CaptureFlags)
        ensures
            final(self).flags() == flags,
    {
        self.capture_flags = flags;
    }

    /// Tags are captured for one lexeme at a time: this clears both tag bits.
    pub fn stop_capturing_tags(&mut self)
        ensures
            final(self).flags() == old(self).flags().spec_without_tags(),
    {
        self.capture_flags = self.capture_flags.without_tags();
    }

    pub fn has_captures(&self) -> (r: bool)
        ensures
            r == !self.flags().spec_is_empty(),
    {
        !self.capture_flags.is_empty()
    }

    /// Feeds the lexeme of `kind` at `range`. Nothing comes back when its
    /// bytes pass through; otherwise the lexeme is consumed and comes back
    /// as a token with no edits.
    pub fn feed(&self, input: &Chunk, range: Range, kind: LexemeKind) -> (r: Option<Token>)
        requires
            range.within(input@.len()),
        ensures
            r.is_some() == self.flags().spec_captures(kind),
            r matches Some(t) ==> t.spec_kind() == kind && t.spec_raw() == input@.subrange(
                range.start as int,
                range.end as int,
            ) && t.spec_mutations() == MutationsModel::none(),
    {
        if self.capture_flags.captures(kind) {
            Some(Token::new(kind, input.slice(range)))
        } else {
            None
        }
    }
}

} // verus!
