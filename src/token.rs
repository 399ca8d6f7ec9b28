use vstd::prelude::*;
use crate::capture::LexemeKind;

verus! {

/// How inserted content is treated: escaped as text, or inserted as markup.
#[derive(Clone, Copy, Debug, PartialEq, Eq, Structural)]
pub enum ContentType {
    Html,
    Text,
}

/// The escaped form of one byte of text content.
pub open spec fn escape_byte(b: u8) -> Seq<u8> {
    if b == 0x26u8 {
        seq![0x26u8, 0x61u8, 0x6du8, 0x70u8, 0x3bu8]  // &amp;

    } else if b == 0x3cu8 {
        seq![0x26u8, 0x6cu8, 0x74u8, 0x3bu8]  // &lt;

    } else if b == 0x3eu8 {
        seq![0x26u8, 0x67u8, 0x74u8, 0x3bu8]  // &gt;

    } else {
        seq![b]
    }
}

/// Text content with `&`, `<` and `>` replaced by character references.
pub open spec fn escape_text(s: Seq<u8>) -> Seq<u8>
    decreases s.len(),
{
    if s.len() == 0 {
        Seq::empty()
    } else {
        escape_text(s.drop_last()) + escape_byte(s.last())
    }
}

/// The bytes that `content` stands for once inserted as `content_type`.
pub open spec fn encoded_content(content: Seq<u8>, content_type: ContentType) -> Seq<u8> {
    match content_type {
        ContentType::Html => content,
        ContentType::Text => escape_text(content),
    }
}

pub(crate) fn push_all(out: &mut Vec<u8>, s: &[u8])
    ensures
        final(out)@ == old(out)@ + s@,
{
    let mut i: usize = 0;
    while i < s.len()
        invariant
            i <= s@.len(),
            out@ == old(out)@ + s@.subrange(0, i as int),
        decreases s@.len() - i,
    {
        out.push(s[i]);
        i = i + 1;
        assert(out@ =~= old(out)@ + s@.subrange(0, i as int));
    }
    assert(s@.subrange(0, s@.len() as int) =~= s@);
}

/// Encodes `content` for insertion as `content_type`.
pub fn encode_content(content: &[u8], content_type: ContentType) -> (r: Vec<u8>)
    ensures
        r@ == encoded_content(content@, content_type),
{
    let mut out: Vec<u8> = Vec::new();
    match content_type {
        ContentType::Html => {
            push_all(&mut out, content);
            assert(out@ =~= content@);
        },
        ContentType::Text => {
            let mut i: usize = 0;
            while i < content.len()
                invariant
                    i <= content@.len(),
                    out@ == escape_text(content@.subrange(0, i as int)),
                decreases content@.len() - i,
            {
                let b = content[i];
                if b == 0x26u8 {
                    out.push(0x26u8);
                    out.push(0x61u8);
                    out.push(0x6du8);
                    out.push(0x70u8);
                    out.push(0x3bu8);
                } else if b == 0x3cu8 {
                    out.push(0x26u8);
                    out.push(0x6cu8);
                    out.push(0x74u8);
                    out.push(0x3bu8);
                } else if b == 0x3eu8 {
                    out.push(0x26u8);
                    out.push(0x67u8);
                    out.push(0x74u8);
                    out.push(0x3bu8);
                } else {
                    out.push(b);
                }
                let ghost prefix = content@.subrange(0, i + 1);
                assert(prefix.drop_last() =~= content@.subrange(0, i as int));
                i = i + 1;
                assert(out@ =~= escape_text(content@.subrange(0, i as int)));
            }
            assert(content@.subrange(0, content@.len() as int) =~= content@);
        },
    }
    out
}

/// The edits a handler made to a token, as plain byte sequences.
pub struct MutationsModel {
    pub before: Seq<u8>,
    pub content: Option<Seq<u8>>,
    pub after: Seq<u8>,
}

impl MutationsModel {
    pub open spec fn none() -> MutationsModel {
        MutationsModel { before: Seq::empty(), content: None, after: Seq::empty() }
    }

    /// The bytes emitted in place of a token whose original bytes are `raw`.
    pub open spec fn apply(self, raw: Seq<u8>) -> Seq<u8> {
        self.before + match self.content {
            Some(c) => c,
            None => raw,
        } + self.after
    }
}

/// The edits pending on a token: content inserted before and after it, and
/// content that replaces it (empty when it is removed).
pub struct Mutations {
    before: Vec<u8>,
    content: Option<Vec<u8>>,
    after: Vec<u8>,
}

impl View for Mutations {
    type V = MutationsModel;

    closed spec fn view(&self) -> MutationsModel {
        MutationsModel {
            before: self.before@,
            content: match self.content {
                Some(c) => Some(c@),
                None => None,
            },
            after: self.after@,
        }
    }
}

impl Mutations {
    pub fn new() -> (r: Mutations)
        ensures
            r@ == MutationsModel::none(),
    {
        Mutations { before: Vec::new(), content: None, after: Vec::new() }
    }

    /// Inserts content before the token, after what was inserted there before.
    pub fn before(&mut self, content: &[u8], content_type: ContentType)
        ensures
            final(self)@ == (MutationsModel {
                before: old(self)@.before + encoded_content(content@, content_type),
                ..old(self)@
            }),
    {
        let e = encode_content(content, content_type);
        push_all(&mut self.before, e.as_slice());
    }

    /// Inserts content right after the token, ahead of what was inserted there
    /// before.
    pub fn after(&mut self, content: &[u8], content_type: ContentType)
        ensures
            final(self)@ == (MutationsModel {
                after: encoded_content(content@, content_type) + old(self)@.after,
                ..old(self)@
            }),
    {
        let mut e = encode_content(content, content_type);
        push_all(&mut e, self.after.as_slice());
        self.after = e;
    }

    /// Replaces the token itself with content.
    pub fn replace(&mut self, content: &[u8], content_type: ContentType)
        ensures
            final(self)@ == (MutationsModel {
                content: Some(encoded_content(content@, content_type)),
                ..old(self)@
            }),
    {
        self.content = Some(encode_content(content, content_type));
    }

    /// Removes the token; content inserted around it stays.
    pub fn remove(&mut self)
        ensures
            final(self)@ == (MutationsModel { content: Some(Seq::empty()), ..old(self)@ }),
    {
        self.content = Some(Vec::new());
    }

    pub fn removed(&self) -> (r: bool)
        ensures
            r == (self@.content == Some(Seq::<u8>::empty())),
    {
        match &self.content {
            Some(c) => {
                assert(c@.len() == 0 ==> c@ =~= Seq::<u8>::empty());
                c.len() == 0
            },
            None => false,
        }
    }

    /// Serializes the token whose original bytes are `raw` under these edits.
    pub fn apply(&self, raw: &[u8]) -> (r: Vec<u8>)
        ensures
            r@ == self@.apply(raw@),
    {
        let mut out: Vec<u8> = Vec::new();
        push_all(&mut out, self.before.as_slice());
        match &self.content {
            Some(c) => push_all(&mut out, c.as_slice()),
            None => push_all(&mut out, raw),
        }
        push_all(&mut out, self.after.as_slice());
        assert(out@ =~= self@.apply(raw@));
        out
    }
}

/// A lexeme upgraded for a handler: its kind, its original bytes and the
/// edits that the handler makes to it.
pub struct Token {
    kind: LexemeKind,
    raw: Vec<u8>,
    mutations: Mutations,
}

impl Token {
    pub closed spec fn spec_kind(&self) -> LexemeKind {
        self.kind
    }

    pub closed spec fn spec_raw(&self) -> Seq<u8> {
        self.raw@
    }

    pub closed spec fn spec_mutations(&self) -> MutationsModel {
        self.mutations@
    }

    pub fn new(kind: LexemeKind, raw: Vec<u8>) -> (r: Token)
        ensures
            r.spec_kind() == kind,
            r.spec_raw() == raw@,
            r.spec_mutations() == MutationsModel::none(),
    {
        Token { kind, raw, mutations: Mutations::new() }
    }

    pub fn kind(&self) -> (r: LexemeKind)
        ensures
            r == self.spec_kind(),
    {
        self.kind
    }

    /// The token's original bytes.
    pub fn raw(&self) -> (r: &[u8])
        ensures
            r@ == self.spec_raw(),
    {
        self.raw.as_slice()
    }

    pub fn mutations(&self) -> (r: &Mutations)
        ensures
            r@ == self.spec_mutations(),
    {
        &self.mutations
    }

    /// Inserts content before the token.
    pub fn before(&mut self, content: &[u8], content_type: ContentType)
        ensures
            final(self).spec_kind() == old(self).spec_kind(),
            final(self).spec_raw() == old(self).spec_raw(),
            final(self).spec_mutations() == (MutationsModel {
                before: old(self).spec_mutations().before + encoded_content(content@, content_type),
                ..old(self).spec_mutations()
            }),
    {
        self.mutations.before(content, content_type);
    }

    /// Inserts content right after the token.
    pub fn after(&mut self, content: &[u8], content_type: ContentType)
        ensures
            final(self).spec_kind() == old(self).spec_kind(),
            final(self).spec_raw() == old(self).spec_raw(),
            final(self).spec_mutations() == (MutationsModel {
                after: encoded_content(content@, content_type) + old(self).spec_mutations().after,
                ..old(self).spec_mutations()
            }),
    {
        self.mutations.after(content, content_type);
    }

    /// Replaces the token with content.
    pub fn replace(&mut self, content: &[u8], content_type: ContentType)
        ensures
            final(self).spec_kind() == old(self).spec_kind(),
            final(self).spec_raw() == old(self).spec_raw(),
            final(self).spec_mutations() == (MutationsModel {
                content: Some(encoded_content(content@, content_type)),
                ..old(self).spec_mutations()
            }),
    {
        self.mutations.replace(content, content_type);
    }

    /// Removes the token from the output.
    pub fn remove(&mut self)
        ensures
            final(self).spec_kind() == old(self).spec_kind(),
            final(self).spec_raw() == old(self).spec_raw(),
            final(self).spec_mutations() == (MutationsModel {
                content: Some(Seq::empty()),
                ..old(self).spec_mutations()
            }),
    {
        self.mutations.remove();
    }

    /// The bytes that stand for the token in the output.
    pub fn to_bytes(&self) -> (r: Vec<u8>)
        ensures
            r@ == self.spec_mutations().apply(self.spec_raw()),
    {
        self.mutations.apply(self.raw.as_slice())
    }
}

} // verus!
