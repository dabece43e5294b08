use vstd::prelude::*;

verus! {

/// Replays the bytes the detector consumed from the head of a stream.
///
/// Detection reads the window from an unseekable source, so the consumed
/// bytes must be handed back before any byte of the remaining input: a
/// reader drains this buffer first and only then delegates to the
/// underlying stream, which makes the composite read exactly equal to the
/// original input, with no byte duplicated or dropped.
pub struct ReplayBuffer {
    prefix: Vec<u8>,
    pos: usize,
}

impl ReplayBuffer {
    #[verifier::type_invariant]
    spec fn inv(self) -> bool {
        self.pos <= self.prefix.len()
    }

    /// The bytes not yet replayed, in the order they will be handed out.
    pub closed spec fn remaining(self) -> Seq<u8> {
        self.prefix@.skip(self.pos as int)
    }

    /// A fresh buffer holding a consumed prefix, none of it replayed yet.
    pub fn new(prefix: Vec<u8>) -> (r: ReplayBuffer)
        ensures
            r.remaining() == prefix@,
    {
        let r = ReplayBuffer { prefix, pos: 0 };
        proof {
            assert(r.remaining() =~= r.prefix@);
        }
        r
    }

    /// Whether every buffered byte has been replayed, so that reads may
    /// fall through to the underlying stream.
    pub fn is_exhausted(&self) -> (b: bool)
        ensures
            b <==> self.remaining().len() == 0,
    {
        proof {
            use_type_invariant(&*self);
        }
        self.pos == self.prefix.len()
    }

    /// Hands out up to `limit` of the replayed bytes, in order, consuming
    /// them: what comes out, followed by what stays, is exactly what was
    /// pending, and the handout is only ever short because the buffer ran
    /// dry.
    pub fn replay_up_to(&mut self, limit: usize) -> (out: Vec<u8>)
        ensures
            out@ + final(self).remaining() == old(self).remaining(),
            out@.len() <= limit,
            out@.len() < limit ==> final(self).remaining().len() == 0,
    {
        proof {
            use_type_invariant(&*self);
        }
        let ghost pending = self.remaining();
        let mut out: Vec<u8> = Vec::new();
        while out.len() < limit && self.pos < self.prefix.len()
            invariant
                self.pos <= self.prefix.len(),
                out@.len() <= limit,
                out@ + self.prefix@.skip(self.pos as int) == pending,
            decreases limit - out.len(),
        {
            proof {
                assert(self.prefix@.skip(self.pos as int) =~= seq![self.prefix@[self.pos as int]]
                    + self.prefix@.skip(self.pos as int + 1));
            }
            out.push(self.prefix[self.pos]);
            self.pos = self.pos + 1;
        }
        out
    }
}

} // verus!
