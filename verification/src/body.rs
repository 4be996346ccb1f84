//! Body materialisation: a stream of chunks becomes one contiguous buffer.

use vstd::prelude::*;

verus! {

/// The transport failed while a body was being read.
#[derive(Debug, PartialEq, Eq)]
pub struct TransportError {
    pub detail: String,
}

impl Clone for TransportError {
    fn clone(&self) -> (copy: Self)
        ensures
            copy == *self,
    {
        TransportError { detail: self.detail.clone() }
    }
}

/// True when no item of the stream is a transport error.
pub open spec fn all_delivered(chunks: Seq<Result<Vec<u8>, TransportError>>) -> bool {
    forall|i: int| 0 <= i < chunks.len() ==> (#[trigger] chunks[i]) is Ok
}

/// The bytes that one item of the stream carries; an error carries none.
pub open spec fn payload(item: Result<Vec<u8>, TransportError>) -> Seq<u8> {
    match item {
        Ok(bytes) => bytes@,
        Err(_) => Seq::<u8>::empty(),
    }
}

/// The bytes of each item, in arrival order.
pub open spec fn payloads(chunks: Seq<Result<Vec<u8>, TransportError>>) -> Seq<Seq<u8>> {
    Seq::new(chunks.len(), |i: int| payload(chunks[i]))
}

/// The logical body: every chunk's bytes, in arrival order, with the chunk
/// boundaries forgotten.
pub open spec fn materialized(chunks: Seq<Result<Vec<u8>, TransportError>>) -> Seq<u8> {
    payloads(chunks).flatten()
}

/// The position of the earliest transport error, or the stream's length when
/// there is none.
pub open spec fn first_failure(chunks: Seq<Result<Vec<u8>, TransportError>>) -> int
    decreases chunks.len(),
{
    if chunks.len() == 0 {
        0
    } else if chunks[0] is Err {
        0
    } else {
        1 + first_failure(chunks.drop_first())
    }
}

/// One more item extends the logical body by that item's bytes.
pub proof fn lemma_materialized_push(
    chunks: Seq<Result<Vec<u8>, TransportError>>,
    item: Result<Vec<u8>, TransportError>,
)
    ensures
        materialized(chunks.push(item)) == materialized(chunks) + payload(item),
{
    assert(payloads(chunks.push(item)) =~= payloads(chunks).push(payload(item)));
    payloads(chunks).lemma_flatten_push(payload(item));
}

/// An error that follows only delivered chunks is the earliest one.
pub proof fn lemma_first_failure_at(chunks: Seq<Result<Vec<u8>, TransportError>>, at: int)
    requires
        0 <= at < chunks.len(),
        all_delivered(chunks.take(at)),
        chunks[at] is Err,
    ensures
        first_failure(chunks) == at,
        !all_delivered(chunks),
    decreases at,
{
    if at == 0 {
    } else {
        assert(chunks.take(at)[0] is Ok);
        let rest = chunks.drop_first();
        assert forall|i: int| 0 <= i < at - 1 implies (#[trigger] rest.take(at - 1)[i]) is Ok by {
            assert(chunks.take(at)[i + 1] is Ok);
        }
        lemma_first_failure_at(rest, at - 1);
    }
}

/// Chunk boundaries carry no meaning: cutting one chunk in two, at any
/// place, leaves the logical body as it was.
pub proof fn lemma_chunk_boundaries_do_not_matter(chunks: Seq<Seq<u8>>, at: int, cut: int)
    requires
        0 <= at < chunks.len(),
        0 <= cut <= chunks[at].len(),
    ensures
        (chunks.take(at) + seq![chunks[at].take(cut), chunks[at].skip(cut)] + chunks.skip(
            at + 1,
        )).flatten() == chunks.flatten(),
{
    let before = chunks.take(at);
    let after = chunks.skip(at + 1);
    let halves = seq![chunks[at].take(cut), chunks[at].skip(cut)];
    let one = seq![chunks[at]];
    assert(chunks =~= before + one + after);
    vstd::seq_lib::lemma_flatten_concat(before, one);
    vstd::seq_lib::lemma_flatten_concat(before + one, after);
    vstd::seq_lib::lemma_flatten_concat(before, halves);
    vstd::seq_lib::lemma_flatten_concat(before + halves, after);
    one.lemma_flatten_one_element();
    assert(halves =~= seq![chunks[at].take(cut)].push(chunks[at].skip(cut)));
    seq![chunks[at].take(cut)].lemma_flatten_push(chunks[at].skip(cut));
    seq![chunks[at].take(cut)].lemma_flatten_one_element();
    assert(chunks[at].take(cut) + chunks[at].skip(cut) =~= chunks[at]);
}

/// A body of no chunks is empty, and a body of one chunk is that chunk.
pub proof fn lemma_small_bodies(chunk: Seq<u8>)
    ensures
        Seq::<Seq<u8>>::empty().flatten() == Seq::<u8>::empty(),
        seq![chunk].flatten() == chunk,
{
    seq![chunk].lemma_flatten_one_element();
}

/// Appends one chunk to the buffer, keeping the byte order.
pub fn absorb(buffer: &mut Vec<u8>, chunk: Vec<u8>)
    ensures
        final(buffer)@ == old(buffer)@ + chunk@,
{
    let mut chunk = chunk;
    buffer.append(&mut chunk);
}

/// Drains a body. The buffer is the concatenation of all chunks in order; the
/// first transport error ends the drain and is returned instead, and nothing
/// that was read before it is handed out.
pub fn body_to_bytes(chunks: Vec<Result<Vec<u8>, TransportError>>) -> (drained: Result<
    Vec<u8>,
    TransportError,
>)
    ensures
        match drained {
            Ok(bytes) => all_delivered(chunks@) && bytes@ == materialized(chunks@),
            Err(error) => !all_delivered(chunks@) && error == chunks@[first_failure(
                chunks@,
            )]->Err_0,
        },
{
    let mut buffer: Vec<u8> = Vec::new();
    proof {
        assert(payloads(chunks@.take(0)) =~= Seq::<Seq<u8>>::empty());
    }
    for item in it: chunks.into_iter()
        invariant
            it.seq() == chunks@,
            all_delivered(chunks@.take(it.index() as int)),
            buffer@ == materialized(chunks@.take(it.index() as int)),
    {
        let ghost seen = chunks@.take(it.index() as int);
        proof {
            assert(chunks@.take(it.index() + 1) =~= seen.push(item));
            lemma_materialized_push(seen, item);
        }
        match item {
            Ok(bytes) => {
                absorb(&mut buffer, bytes);
            },
            Err(error) => {
                proof {
                    lemma_first_failure_at(chunks@, it.index() as int);
                }
                return Err(error);
            },
        }
    }
    proof {
        assert(chunks@.take(chunks@.len() as int) =~= chunks@);
    }
    Ok(buffer)
}

} // verus!
