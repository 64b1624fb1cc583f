//! The body capturer: drains a chunked byte stream into one buffer, in
//! arrival order, and rebuilds a stream that yields exactly the captured
//! bytes.
//!
//! A stream is modelled as the sequence of chunks it yields; reading it
//! fully yields the concatenation of those chunks.  The whole body is
//! held in memory while captured; bodies are assumed bounded by the
//! surrounding server's own size limits, and an implementation placed in
//! front of an unbounded peer may want a configurable cap here.

use vstd::prelude::*;

verus! {

/// The bytes that fully reading a chunked stream yields: the
/// concatenation of its chunks, in arrival order.
pub open spec fn flat(chunks: Seq<Seq<u8>>) -> Seq<u8>
    decreases chunks.len(),
{
    if chunks.len() == 0 {
        Seq::empty()
    } else {
        flat(chunks.drop_last()) + chunks.last()
    }
}

/// A buffer of bytes accumulated from a stream, valid for one request.
#[derive(Debug)]
pub struct CapturedBody {
    bytes: Vec<u8>,
}

impl View for CapturedBody {
    type V = Seq<u8>;

    closed spec fn view(&self) -> Seq<u8> {
        self.bytes@
    }
}

impl CapturedBody {
    /// An empty buffer.
    pub fn new() -> (b: Self)
        ensures
            b@ =~= Seq::<u8>::empty(),
    {
        CapturedBody { bytes: Vec::new() }
    }

    /// Appends one arrived chunk to the buffer.
    pub fn push_chunk(&mut self, chunk: &Vec<u8>)
        ensures
            final(self)@ =~= old(self)@ + chunk@,
    {
        let mut i: usize = 0;
        while i < chunk.len()
            invariant
                i <= chunk@.len(),
                self.bytes@ =~= old(self).bytes@ + chunk@.take(i as int),
            decreases chunk@.len() - i,
        {
            self.bytes.push(chunk[i]);
            proof {
                assert(chunk@.take(i as int + 1) =~= chunk@.take(i as int).push(chunk@[i as int]));
            }
            i = i + 1;
        }
        proof {
            assert(chunk@.take(chunk@.len() as int) =~= chunk@);
        }
    }

    /// Drains a whole stream: concatenates all its chunks, in arrival
    /// order, into one buffer.
    pub fn capture(chunks: &Vec<Vec<u8>>) -> (b: Self)
        ensures
            b@ == flat(chunks.deep_view()),
    {
        let mut b = CapturedBody::new();
        let mut i: usize = 0;
        proof {
            assert(chunks.deep_view().take(0) =~= Seq::<Seq<u8>>::empty());
            assert(b@ =~= flat(chunks.deep_view().take(0)));
        }
        while i < chunks.len()
            invariant
                i <= chunks@.len(),
                b@ == flat(chunks.deep_view().take(i as int)),
            decreases chunks@.len() - i,
        {
            b.push_chunk(&chunks[i]);
            proof {
                let d = chunks.deep_view();
                assert(d.take(i as int + 1).drop_last() =~= d.take(i as int));
                assert(d.take(i as int + 1).last() == d[i as int]);
                assert(d[i as int] =~= chunks@[i as int]@);
                assert(b@ =~= flat(d.take(i as int + 1)));
            }
            i = i + 1;
        }
        proof {
            assert(chunks.deep_view().take(chunks@.len() as int) =~= chunks.deep_view());
        }
        b
    }

    /// How many bytes were captured.
    pub fn len(&self) -> (n: usize)
        ensures
            n == self@.len(),
    {
        self.bytes.len()
    }

    /// Decodes the captured bytes, for a span attribute.
    pub fn to_text(&self) -> (r: String)
        ensures
            r@ == crate::text::spec_display_text(self@),
    {
        crate::text::display_text(&self.bytes)
    }

    /// Builds a fresh stream pre-loaded with exactly the captured bytes:
    /// one chunk that, fully read, yields the original bytes in the
    /// original order.  Can be called any number of times.
    pub fn rebuild(&self) -> (s: Vec<u8>)
        ensures
            s@ == self@,
    {
        let mut s: Vec<u8> = Vec::new();
        let mut i: usize = 0;
        while i < self.bytes.len()
            invariant
                i <= self.bytes@.len(),
                s@ =~= self.bytes@.take(i as int),
            decreases self.bytes@.len() - i,
        {
            s.push(self.bytes[i]);
            proof {
                assert(self.bytes@.take(i as int + 1) =~= self.bytes@.take(i as int).push(
                    self.bytes@[i as int],
                ));
            }
            i = i + 1;
        }
        proof {
            assert(self.bytes@.take(self.bytes@.len() as int) =~= self.bytes@);
        }
        s
    }
}

/// Draining a stream and rebuilding one from the captured buffer is
/// repeatable: the rebuilt stream, read fully, yields the same bytes as
/// the original stream, and capturing the rebuilt stream again gives the
/// same buffer back, for any number of reconstructions.
pub proof fn lemma_rebuild_repeatable(chunks: Seq<Seq<u8>>)
    ensures
        flat(seq![flat(chunks)]) == flat(chunks),
{
    let rebuilt = seq![flat(chunks)];
    assert(rebuilt.len() == 1);
    assert(rebuilt.last() == flat(chunks));
    assert(rebuilt.drop_last() =~= Seq::<Seq<u8>>::empty());
    assert(flat(Seq::<Seq<u8>>::empty()) == Seq::<u8>::empty());
    assert(flat(rebuilt) == Seq::<u8>::empty() + flat(chunks));
    assert(Seq::<u8>::empty() + flat(chunks) =~= flat(chunks));
}

} // verus!
