use vstd::prelude::*;
use crate::base::Chunk;
use crate::capture::{CaptureFlags, LexemeKind};
use crate::lexeme::{AttributeOutline, TagNameInfo};
use crate::token::{MutationsModel, Token};

verus! {

/// The controller's answer to the start of an element: either the capture
/// flags for it, or a request to see its attributes first.
#[derive(Clone, Copy, Debug, PartialEq, Eq, Structural)]
pub enum ElementStartResponse {
    ContentSettings(CaptureFlags),
    RequestElementModifiersInfo,
}

/// What a deferred decision on an element gets to see: its attributes and
/// whether the tag closes itself.
pub struct ElementModifiersInfo {
    pub attributes: Vec<AttributeOutline>,
    pub self_closing: bool,
}

/// One call made to a controller: what it was handed and what came back
/// (for a token, the edits made to it).
pub enum ControllerCall {
    DocumentSettings { answer: CaptureFlags },
    ElementStart { name_info: TagNameInfo, response: ElementStartResponse },
    ElementModifiers { attributes: Seq<AttributeOutline>, self_closing: bool, answer: CaptureFlags },
    ElementEnd { name_info: TagNameInfo, answer: CaptureFlags },
    Token { kind: LexemeKind, raw: Seq<u8>, edits: MutationsModel },
}

/// The selector engine's side of the dispatcher: it decides, element by
/// element, what is captured, and edits the tokens it is handed. Its model
/// is the history of the calls made to it.
pub trait TransformController {
    /// Every call made so far, in order, with what came back. An impl
    /// that is verified keeps its own log; one written outside the verifier
    /// is taken at its word to record its calls.
    closed spec fn log(&self) -> Seq<ControllerCall> {
        Seq::empty()
    }

    /// The capture flags that handlers of the whole document ask for.
    fn document_level_content_settings(&mut self) -> (r: CaptureFlags)
        ensures
            final(self).log() == old(self).log().push(ControllerCall::DocumentSettings { answer: r }),
    ;

    fn handle_element_start(&mut self, input: &Chunk, name_info: TagNameInfo) -> (r: ElementStartResponse)
        ensures
            final(self).log() == old(self).log().push(
                ControllerCall::ElementStart { name_info, response: r },
            ),
    ;

    /// Answers a start that was answered with a request for modifiers.
    fn handle_element_modifiers_info(&mut self, input: &Chunk, info: ElementModifiersInfo) -> (r: CaptureFlags)
        ensures
            final(self).log() == old(self).log().push(
                ControllerCall::ElementModifiers {
                    attributes: info.attributes@,
                    self_closing: info.self_closing,
                    answer: r,
                },
            ),
    ;

    fn handle_element_end(&mut self, input: &Chunk, name_info: TagNameInfo) -> (r: CaptureFlags)
        ensures
            final(self).log() == old(self).log().push(ControllerCall::ElementEnd { name_info, answer: r }),
    ;

    fn handle_token(&mut self, token: &mut Token)
        ensures
            final(self).log() == old(self).log().push(
                ControllerCall::Token {
                    kind: old(token).spec_kind(),
                    raw: old(token).spec_raw(),
                    edits: final(token).spec_mutations(),
                },
            ),
    ;
}

} // verus!
