//! Cutting a byte stream into frames.

use vstd::prelude::*;

verus! {

/// The byte that ends a frame.
pub const NEWLINE: u8 = 10;

/// Whether `k` is the place of the first newline among the bytes.
pub open spec fn first_newline(bytes: Seq<u8>, k: int) -> bool {
    &&& 0 <= k < bytes.len()
    &&& bytes[k] == NEWLINE
    &&& forall|j: int| 0 <= j < k ==> bytes[j] != NEWLINE
}

/// Whether there is a newline among the bytes.
pub open spec fn has_newline(bytes: Seq<u8>) -> bool {
    exists|k: int| 0 <= k < bytes.len() && bytes[k] == NEWLINE
}

/// The bytes without the newlines that they begin with.
pub open spec fn skip_blank(bytes: Seq<u8>) -> Seq<u8>
    decreases bytes.len(),
{
    if bytes.len() > 0 && bytes[0] == NEWLINE {
        skip_blank(bytes.drop_first())
    } else {
        bytes
    }
}

/// The bytes of a connection that have been read and not yet handed out as
/// frames. One reader serves a connection for as long as it lives, so no
/// byte that was read is lost between two frames.
pub struct FrameReader {
    pending: Vec<u8>,
}

impl View for FrameReader {
    type V = Seq<u8>;

    closed spec fn view(&self) -> Seq<u8> {
        self.pending@
    }
}

impl FrameReader {
    /// A reader that holds no byte.
    pub fn new() -> (r: Self)
        ensures
            r@ == Seq::<u8>::empty(),
    {
        Self { pending: Vec::new() }
    }

    /// The number of bytes that wait for the end of their frame.
    pub fn len(&self) -> (n: usize)
        ensures
            n == self@.len(),
    {
        self.pending.len()
    }

    /// Takes in what was read from the connection.
    pub fn push(&mut self, bytes: &[u8])
        ensures
            final(self)@ == old(self)@ + bytes@,
    {
        let ghost before = self.pending@;
        let mut i: usize = 0;
        while i < bytes.len()
            invariant
                i <= bytes@.len(),
                self.pending@ == before + bytes@.subrange(0, i as int),
            decreases bytes@.len() - i,
        {
            self.pending.push(bytes[i]);
            assert(bytes@.subrange(0, i + 1) =~= bytes@.subrange(0, i as int).push(bytes@[i as int]));
            i += 1;
        }
        assert(bytes@.subrange(0, i as int) =~= bytes@);
    }

    /// Hands out the first frame: the bytes before the first newline. The
    /// frame and its newline leave the reader; what came after them stays.
    /// Where no newline has been read yet, nothing is handed out and nothing
    /// changes.
    pub fn next_frame(&mut self) -> (r: Option<Vec<u8>>)
        ensures
            match r {
                Some(frame) => {
                    &&& first_newline(old(self)@, frame@.len() as int)
                    &&& frame@ == old(self)@.subrange(0, frame@.len() as int)
                    &&& final(self)@ == old(self)@.subrange(
                        frame@.len() as int + 1,
                        old(self)@.len() as int,
                    )
                },
                None => !has_newline(old(self)@) && final(self)@ == old(self)@,
            },
    {
        let ghost before = self.pending@;
        let mut k: usize = 0;
        while k < self.pending.len()
            invariant
                self.pending@ == before,
                before == old(self)@,
                k <= before.len(),
                forall|j: int| 0 <= j < k ==> before[j] != NEWLINE,
            decreases before.len() - k,
        {
            if self.pending[k] == NEWLINE {
                let mut rest = self.pending.split_off(k + 1);
                self.pending.truncate(k);
                std::mem::swap(&mut self.pending, &mut rest);
                assert(rest@ =~= before.subrange(0, k as int));
                return Some(rest);
            }
            k += 1;
        }
        None
    }
}

/// A frame and what is left after it put the stream together again: no byte
/// is dropped and none is made up.
pub proof fn frames_lose_nothing(stream: Seq<u8>, frame: Seq<u8>, rest: Seq<u8>)
    requires
        first_newline(stream, frame.len() as int),
        frame == stream.subrange(0, frame.len() as int),
        rest == stream.subrange(frame.len() as int + 1, stream.len() as int),
    ensures
        stream == frame + seq![NEWLINE] + rest,
        !has_newline(frame),
{
    assert(stream =~= frame + seq![NEWLINE] + rest);
}

} // verus!
