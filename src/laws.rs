use vstd::prelude::*;
use crate::base::Range;
use crate::dispatcher::splice_step;
use crate::token::MutationsModel;

verus! {

/// A lexeme that the dispatcher consumed: where it stood in the chunk and the
/// edits that the controller made to its token.
pub struct ConsumedLexeme {
    pub range: Range,
    pub edits: MutationsModel,
}

/// The consumed lexemes come in input order, starting at or after `last`,
/// and all end by `stop`.
pub open spec fn settles_in_order(consumed: Seq<ConsumedLexeme>, last: nat, stop: nat) -> bool
    decreases consumed.len(),
{
    if consumed.len() == 0 {
        last <= stop
    } else {
        &&& last <= consumed[0].range.start
        &&& consumed[0].range.start <= consumed[0].range.end
        &&& settles_in_order(consumed.drop_first(), consumed[0].range.end as nat, stop)
    }
}

/// What the dispatcher emits for one chunk: each consumed lexeme spliced in
/// turn, then the flush of the rest up to `stop`.
pub open spec fn chunk_output(input: Seq<u8>, last: nat, consumed: Seq<ConsumedLexeme>, stop: nat) -> Seq<u8>
    decreases consumed.len(),
{
    if consumed.len() == 0 {
        input.subrange(last as int, stop as int)
    } else {
        splice_step(input, last as int, consumed[0].range, consumed[0].edits) + chunk_output(
            input,
            consumed[0].range.end as nat,
            consumed.drop_first(),
            stop,
        )
    }
}

/// No token was edited.
pub open spec fn all_unedited(consumed: Seq<ConsumedLexeme>) -> bool {
    forall|i: int| 0 <= i < consumed.len() ==> (#[trigger] consumed[i]).edits == MutationsModel::none()
}

/// How the dispatcher handled one chunk of a stream: the lexemes it consumed
/// in the buffer, and how many bytes at its end the lexer kept back.
pub struct ChunkDispatch {
    pub consumed: Seq<ConsumedLexeme>,
    pub blocked: nat,
}

/// The steps fit the stream: one per chunk, the bytes kept back are there,
/// and the consumed lexemes of each buffer are in order before them.
pub open spec fn stream_fits(carry: Seq<u8>, chunks: Seq<Seq<u8>>, steps: Seq<ChunkDispatch>) -> bool
    decreases chunks.len(),
{
    if chunks.len() == 0 {
        steps.len() == 0
    } else {
        let buf = carry + chunks[0];
        let stop = (buf.len() - steps[0].blocked) as nat;
        &&& steps.len() == chunks.len()
        &&& steps[0].blocked <= buf.len()
        &&& settles_in_order(steps[0].consumed, 0, stop)
        &&& stream_fits(buf.subrange(stop as int, buf.len() as int), chunks.drop_first(), steps.drop_first())
    }
}

/// Everything emitted over a stream: each chunk is appended to what was kept
/// back, dispatched and flushed, and the end of the stream flushes what is
/// kept back last.
pub open spec fn stream_output(carry: Seq<u8>, chunks: Seq<Seq<u8>>, steps: Seq<ChunkDispatch>) -> Seq<u8>
    decreases chunks.len(),
{
    if chunks.len() == 0 || steps.len() == 0 {
        carry
    } else {
        let buf = carry + chunks[0];
        let stop = (buf.len() - steps[0].blocked) as nat;
        chunk_output(buf, 0, steps[0].consumed, stop) + stream_output(
            buf.subrange(stop as int, buf.len() as int),
            chunks.drop_first(),
            steps.drop_first(),
        )
    }
}

pub open spec fn all_steps_unedited(steps: Seq<ChunkDispatch>) -> bool {
    forall|i: int| 0 <= i < steps.len() ==> all_unedited(#[trigger] steps[i].consumed)
}

/// Pass-through within a chunk: where no consumed token was edited, the
/// chunk's output is its input from `last` to `stop`, byte for byte.
pub proof fn lemma_chunk_identity(input: Seq<u8>, last: nat, consumed: Seq<ConsumedLexeme>, stop: nat)
    requires
        settles_in_order(consumed, last, stop),
        stop <= input.len(),
        all_unedited(consumed),
    ensures
        chunk_output(input, last, consumed, stop) == input.subrange(last as int, stop as int),
    decreases consumed.len(),
{
    if consumed.len() > 0 {
        let c = consumed[0];
        let rest = consumed.drop_first();
        assert(c.edits == MutationsModel::none());
        assert forall|i: int| 0 <= i < rest.len() implies (#[trigger] rest[i]).edits
            == MutationsModel::none() by {
            assert(rest[i] == consumed[i + 1]);
        }
        lemma_settled_bounds(rest, c.range.end as nat, stop);
        lemma_chunk_identity(input, c.range.end as nat, rest, stop);
        assert(c.edits.apply(input.subrange(c.range.start as int, c.range.end as int))
            =~= input.subrange(c.range.start as int, c.range.end as int));
        assert(chunk_output(input, last, consumed, stop) =~= input.subrange(last as int, stop as int));
    }
}

proof fn lemma_settled_bounds(consumed: Seq<ConsumedLexeme>, last: nat, stop: nat)
    requires
        settles_in_order(consumed, last, stop),
    ensures
        last <= stop,
    decreases consumed.len(),
{
    if consumed.len() > 0 {
        lemma_settled_bounds(consumed.drop_first(), consumed[0].range.end as nat, stop);
    }
}

/// Identity under no edits: with no token edited (in particular with no
/// handlers, when nothing is captured at all), everything emitted over a
/// stream, however it was cut into chunks, is the input itself.
pub proof fn lemma_identity_under_no_op(carry: Seq<u8>, chunks: Seq<Seq<u8>>, steps: Seq<ChunkDispatch>)
    requires
        stream_fits(carry, chunks, steps),
        all_steps_unedited(steps),
    ensures
        stream_output(carry, chunks, steps) == carry + chunks.flatten(),
    decreases chunks.len(),
{
    if chunks.len() == 0 {
        assert(carry + chunks.flatten() =~= carry);
    } else {
        let buf = carry + chunks[0];
        let stop = (buf.len() - steps[0].blocked) as nat;
        let kept = buf.subrange(stop as int, buf.len() as int);
        assert(all_unedited(steps[0].consumed));
        lemma_chunk_identity(buf, 0, steps[0].consumed, stop);
        assert forall|i: int| 0 <= i < steps.drop_first().len() implies all_unedited(
            #[trigger] steps.drop_first()[i].consumed,
        ) by {
            assert(steps.drop_first()[i] == steps[i + 1]);
        }
        lemma_identity_under_no_op(kept, chunks.drop_first(), steps.drop_first());
        assert(buf.subrange(0, stop as int) + kept =~= buf);
        assert(chunks.flatten() == chunks[0] + chunks.drop_first().flatten());
        assert(stream_output(carry, chunks, steps) =~= carry + chunks.flatten());
    }
}

/// Chunking invariance: two streams that cut the same bytes into chunks
/// differently emit the same bytes, where no token is edited.
pub proof fn lemma_chunking_invariance(
    chunks1: Seq<Seq<u8>>,
    steps1: Seq<ChunkDispatch>,
    chunks2: Seq<Seq<u8>>,
    steps2: Seq<ChunkDispatch>,
)
    requires
        stream_fits(Seq::empty(), chunks1, steps1),
        stream_fits(Seq::empty(), chunks2, steps2),
        all_steps_unedited(steps1),
        all_steps_unedited(steps2),
        chunks1.flatten() == chunks2.flatten(),
    ensures
        stream_output(Seq::empty(), chunks1, steps1) == stream_output(Seq::empty(), chunks2, steps2),
{
    lemma_identity_under_no_op(Seq::empty(), chunks1, steps1);
    lemma_identity_under_no_op(Seq::empty(), chunks2, steps2);
}

/// A token that no handler edited gives back its own bytes: settling it
/// emits the input from `last` to the lexeme's end unchanged.
pub proof fn lemma_unedited_token_gives_own_bytes(input: Seq<u8>, last: nat, range: Range)
    requires
        last <= range.start <= range.end <= input.len(),
    ensures
        splice_step(input, last as int, range, MutationsModel::none()) == input.subrange(
            last as int,
            range.end as int,
        ),
{
    assert(splice_step(input, last as int, range, MutationsModel::none()) =~= input.subrange(
        last as int,
        range.end as int,
    ));
}

/// Where the consumed lexeme `i` starts settling the input: at `last` for
/// the first, after the end of the one before it for the others.
pub open spec fn settle_start(consumed: Seq<ConsumedLexeme>, last: nat, i: int) -> nat {
    if i <= 0 {
        last
    } else {
        consumed[i - 1].range.end as nat
    }
}

/// A run of the dispatcher over one chunk: `outs[i + 1]` is the output
/// after the consumed lexeme `i`, as the dispatch contracts give it (a
/// lexeme that is not captured leaves the output alone and is not listed),
/// and the last entry is the output after the flush up to `stop`.
pub open spec fn dispatch_run(
    input: Seq<u8>,
    last: nat,
    consumed: Seq<ConsumedLexeme>,
    stop: nat,
    outs: Seq<Seq<u8>>,
) -> bool {
    &&& outs.len() == consumed.len() + 2
    &&& forall|i: int|
        0 <= i < consumed.len() ==> #[trigger] outs[i + 1] == outs[i] + splice_step(
            input,
            settle_start(consumed, last, i) as int,
            consumed[i].range,
            consumed[i].edits,
        )
    &&& outs.last() == outs[consumed.len() as int] + input.subrange(
        settle_start(consumed, last, consumed.len() as int) as int,
        stop as int,
    )
}

proof fn lemma_run_from(
    input: Seq<u8>,
    last: nat,
    consumed: Seq<ConsumedLexeme>,
    stop: nat,
    outs: Seq<Seq<u8>>,
    k: int,
)
    requires
        dispatch_run(input, last, consumed, stop, outs),
        0 <= k <= consumed.len(),
    ensures
        outs.last() == outs[k] + chunk_output(
            input,
            settle_start(consumed, last, k),
            consumed.subrange(k, consumed.len() as int),
            stop,
        ),
    decreases consumed.len() - k,
{
    let n = consumed.len() as int;
    let rest = consumed.subrange(k, n);
    if k == n {
        assert(rest.len() == 0);
    } else {
        lemma_run_from(input, last, consumed, stop, outs, k + 1);
        assert(rest[0] == consumed[k]);
        assert(rest.drop_first() =~= consumed.subrange(k + 1, n));
        assert(outs[k + 1] == outs[k] + splice_step(
            input,
            settle_start(consumed, last, k) as int,
            consumed[k].range,
            consumed[k].edits,
        ));
        assert(settle_start(consumed, last, k + 1) == consumed[k].range.end as nat);
        assert(outs.last() =~= outs[k] + chunk_output(input, settle_start(consumed, last, k), rest, stop));
    }
}

/// What the dispatcher emits over one chunk, one handled lexeme after the
/// other and then the flush, is `chunk_output` of the lexemes it consumed.
pub proof fn lemma_dispatch_run_emits_chunk_output(
    input: Seq<u8>,
    last: nat,
    consumed: Seq<ConsumedLexeme>,
    stop: nat,
    outs: Seq<Seq<u8>>,
)
    requires
        dispatch_run(input, last, consumed, stop, outs),
    ensures
        outs.last() == outs[0] + chunk_output(input, last, consumed, stop),
{
    lemma_run_from(input, last, consumed, stop, outs, 0);
    assert(consumed.subrange(0, consumed.len() as int) =~= consumed);
}

} // verus!
