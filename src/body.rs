use vstd::prelude::*;
use vstd::utf8::{decode_utf8, valid_utf8};
use crate::marshal::{decode_lossy, lossy_text};

verus! {

/// How many bytes each read of a request body asks for.
pub const CHUNK_SIZE: usize = 512;

/// What a reader holds: the bytes received so far, and whether the input
/// has ended.
pub open spec fn after_chunk(received: Seq<u8>, chunk: Seq<u8>) -> (Seq<u8>, bool) {
    (received + chunk, chunk.len() < CHUNK_SIZE)
}

/// The chunk that a read of `CHUNK_SIZE` bytes delivers from the rest of
/// the input.
pub open spec fn next_chunk(rest: Seq<u8>) -> Seq<u8> {
    if rest.len() < CHUNK_SIZE {
        rest
    } else {
        rest.take(CHUNK_SIZE as int)
    }
}

/// What a reader holds once it has read all of `rest` after `received`.
pub open spec fn gather(received: Seq<u8>, rest: Seq<u8>) -> Seq<u8>
    decreases rest.len(),
{
    let c = next_chunk(rest);
    if c.len() < CHUNK_SIZE {
        after_chunk(received, c).0
    } else {
        gather(after_chunk(received, c).0, rest.skip(CHUNK_SIZE as int))
    }
}

/// How many reads a reader makes to read all of `rest`.
pub open spec fn reads_needed(rest: Seq<u8>) -> nat
    decreases rest.len(),
{
    if rest.len() < CHUNK_SIZE {
        1
    } else {
        1 + reads_needed(rest.skip(CHUNK_SIZE as int))
    }
}

/// Reading a body chunk by chunk gives it back byte for byte, whatever its
/// length: each read but the last delivers a full chunk, the last one
/// delivers what is left (nothing, when the length is a multiple of the chunk
/// size), and the reader makes one read more than there are full chunks.
pub proof fn lemma_gather_round_trip(received: Seq<u8>, rest: Seq<u8>)
    ensures
        gather(received, rest) == received + rest,
        reads_needed(rest) == rest.len() / (CHUNK_SIZE as nat) + 1,
    decreases rest.len(),
{
    if rest.len() < CHUNK_SIZE {
        assert(next_chunk(rest) == rest);
    } else {
        let c = next_chunk(rest);
        let tail = rest.skip(CHUNK_SIZE as int);
        lemma_gather_round_trip(received + c, tail);
        assert(c + tail =~= rest);
        assert(received + c + tail =~= received + rest);
        assert(rest.len() / (CHUNK_SIZE as nat) == tail.len() / (CHUNK_SIZE as nat) + 1);
    }
}

/// A body read in full from an empty input is empty, and the reader stops
/// after its first read; the text of that body is the empty text.
pub proof fn lemma_empty_body(rest: Seq<u8>)
    requires
        rest.len() == 0,
    ensures
        after_chunk(Seq::<u8>::empty(), next_chunk(rest)) == (Seq::<u8>::empty(), true),
        reads_needed(rest) == 1,
        valid_utf8(gather(Seq::<u8>::empty(), rest)),
        decode_utf8(gather(Seq::<u8>::empty(), rest)) == Seq::<char>::empty(),
{
    assert(Seq::<u8>::empty() + rest =~= Seq::<u8>::empty());
    assert(valid_utf8(Seq::<u8>::empty()));
}

/// A body that is the UTF-8 encoding of some text reads back as that text.
pub proof fn lemma_body_text_round_trip(body: Seq<u8>)
    requires
        valid_utf8(body),
    ensures
        decode_utf8(gather(Seq::<u8>::empty(), body)) == decode_utf8(body),
{
    lemma_gather_round_trip(Seq::<u8>::empty(), body);
    assert(Seq::<u8>::empty() + body =~= body);
}

/// Gathers a request body from successive reads of `CHUNK_SIZE` bytes. The
/// first read that delivers fewer bytes than asked for ends the body. The
/// bytes are decoded once, at the end, so that a character split between two
/// chunks comes out whole.
pub struct BodyReader {
    bytes: Vec<u8>,
    done: bool,
}

impl BodyReader {
    pub closed spec fn received(&self) -> Seq<u8> {
        self.bytes@
    }

    pub closed spec fn is_done(&self) -> bool {
        self.done
    }

    pub fn new() -> (r: BodyReader)
        ensures
            r.received() == Seq::<u8>::empty(),
            !r.is_done(),
    {
        BodyReader { bytes: Vec::new(), done: false }
    }

    /// Whether another read is due.
    pub fn wants_more(&self) -> (r: bool)
        ensures
            r == !self.is_done(),
    {
        !self.done
    }

    /// Takes the bytes that one read delivered.
    pub fn push(&mut self, chunk: &[u8])
        requires
            !old(self).is_done(),
            chunk@.len() <= CHUNK_SIZE,
        ensures
            (final(self).received(), final(self).is_done()) == after_chunk(
                old(self).received(),
                chunk@,
            ),
    {
        let mut i: usize = 0;
        while i < chunk.len()
            invariant
                i <= chunk@.len(),
                self.bytes@ == old(self).bytes@ + chunk@.take(i as int),
                !self.done,
            decreases chunk@.len() - i,
        {
            self.bytes.push(chunk[i]);
            i = i + 1;
            assert(chunk@.take(i as int) == chunk@.take(i - 1 as int).push(chunk@[i - 1]));
        }
        assert(chunk@.take(chunk@.len() as int) == chunk@);
        self.done = chunk.len() < CHUNK_SIZE;
    }

    /// The body received so far, as text.
    pub fn text(&self) -> (r: String)
        ensures
            r@ == lossy_text(self.received()),
            valid_utf8(self.received()) ==> r@ == decode_utf8(self.received()),
            self.received().len() == 0 ==> r@ == Seq::<char>::empty(),
    {
        proof {
            if self.bytes@.len() == 0 {
                assert(valid_utf8(self.bytes@));
                assert(decode_utf8(self.bytes@) == Seq::<char>::empty());
            }
        }
        decode_lossy(self.bytes.as_slice())
    }
}

} // verus!
