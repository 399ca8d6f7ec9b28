use vstd::prelude::*;
use crate::dispatcher::RewritingError;
use crate::token::push_all;

verus! {

/// The input that the stream keeps between writes: the bytes that the lexer
/// has not settled yet, never more than the memory allowed for them.
pub struct Buffer {
    data: Vec<u8>,
    max_allowed_memory_usage: usize,
}

impl View for Buffer {
    type V = Seq<u8>;

    closed spec fn view(&self) -> Seq<u8> {
        self.data@
    }
}

impl Buffer {
    pub closed spec fn limit(&self) -> nat {
        self.max_allowed_memory_usage as nat
    }

    /// What is retained stays within the limit.
    pub open spec fn wf(&self) -> bool {
        self@.len() <= self.limit()
    }

    pub fn new(max_allowed_memory_usage: usize) -> (r: Buffer)
        ensures
            r@ == Seq::<u8>::empty(),
            r.limit() == max_allowed_memory_usage,
            r.wf(),
    {
        Buffer { data: Vec::new(), max_allowed_memory_usage }
    }

    pub fn bytes(&self) -> (r: &[u8])
        ensures
            r@ == self@,
    {
        self.data.as_slice()
    }

    pub fn len(&self) -> (r: usize)
        ensures
            r == self@.len(),
    {
        self.data.len()
    }

    pub fn max_allowed_memory_usage(&self) -> (r: usize)
        ensures
            r == self.limit(),
    {
        self.max_allowed_memory_usage
    }

    /// Keeps `chunk` after what is retained, unless that would go over the
    /// limit, which is an error that leaves the buffer as it was.
    pub fn append(&mut self, chunk: &[u8]) -> (r: Result<(), RewritingError>)
        requires
            old(self).wf(),
        ensures
            final(self).wf(),
            final(self).limit() == old(self).limit(),
            r is Ok <==> old(self)@.len() + chunk@.len() <= old(self).limit(),
            r is Ok ==> final(self)@ == old(self)@ + chunk@,
            r is Err ==> final(self)@ == old(self)@ && r == Err::<(), RewritingError>(
                RewritingError::MemoryLimitExceeded,
            ),
    {
        if chunk.len() > self.max_allowed_memory_usage - self.data.len() {
            return Err(RewritingError::MemoryLimitExceeded);
        }
        push_all(&mut self.data, chunk);
        Ok(())
    }

    /// Drops the first `consumed` bytes, which the lexer has settled.
    pub fn shift(&mut self, consumed: usize)
        requires
            old(self).wf(),
            consumed <= old(self)@.len(),
        ensures
            final(self).wf(),
            final(self).limit() == old(self).limit(),
            final(self)@ == old(self)@.subrange(consumed as int, old(self)@.len() as int),
    {
        let mut rest: Vec<u8> = Vec::new();
        let mut i: usize = consumed;
        while i < self.data.len()
            invariant
                consumed <= i <= self.data@.len(),
                self.data@ == old(self).data@,
                rest@ == self.data@.subrange(consumed as int, i as int),
            decreases self.data@.len() - i,
        {
            rest.push(self.data[i]);
            i = i + 1;
            assert(rest@ =~= self.data@.subrange(consumed as int, i as int));
        }
        self.data = rest;
    }
}

} // verus!
