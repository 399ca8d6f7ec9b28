use vstd::prelude::*;

verus! {

/// A half-open `[start, end)` byte range in chunk-local coordinates.
#[derive(Clone, Copy, Debug, PartialEq, Eq, Structural)]
pub struct Range {
    pub start: usize,
    pub end: usize,
}

impl Range {
    /// A range is well formed when it does not run backwards.
    pub open spec fn wf(self) -> bool {
        self.start <= self.end
    }

    /// The range lies inside a chunk of `len` bytes.
    pub open spec fn within(self, len: nat) -> bool {
        self.start <= self.end && self.end <= len
    }
}

/// A view over the bytes of the current input buffer.
pub struct Chunk {
    bytes: Vec<u8>,
}

impl View for Chunk {
    type V = Seq<u8>;

    closed spec fn view(&self) -> Seq<u8> {
        self.bytes@
    }
}

impl Chunk {
    pub fn new(bytes: Vec<u8>) -> (r: Chunk)
        ensures
            r@ == bytes@,
    {
        Chunk { bytes }
    }

    pub fn len(&self) -> (r: usize)
        ensures
            r == self@.len(),
    {
        self.bytes.len()
    }

    pub fn is_empty(&self) -> (r: bool)
        ensures
            r == (self@.len() == 0),
    {
        self.bytes.len() == 0
    }

    pub fn as_bytes(&self) -> (r: &[u8])
        ensures
            r@ == self@,
    {
        self.bytes.as_slice()
    }

    /// Copies out the bytes of `range`.
    pub fn slice(&self, range: Range) -> (r: Vec<u8>)
        requires
            range.within(self@.len()),
        ensures
            r@ == self@.subrange(range.start as int, range.end as int),
    {
        let mut out: Vec<u8> = Vec::with_capacity(range.end - range.start);
        let mut i: usize = range.start;
        while i < range.end
            invariant
                range.start <= i <= range.end,
                range.end <= self@.len(),
                out@ == self@.subrange(range.start as int, i as int),
            decreases range.end - i,
        {
            out.push(self.bytes[i]);
            i = i + 1;
            assert(out@ =~= self@.subrange(range.start as int, i as int));
        }
        out
    }
}

} // verus!
