use vstd::prelude::*;

verus! {

/// The byte that ends a line.
pub const NEWLINE: u8 = 10;

/// No byte of `s` ends a line.
pub open spec fn newline_free(s: Seq<u8>) -> bool {
    forall|i: int| 0 <= i < s.len() ==> s[i] != NEWLINE
}

/// `line` is a complete line: it ends with the terminator and holds no other.
pub open spec fn is_complete_line(line: Seq<u8>) -> bool {
    line.len() > 0 && line.last() == NEWLINE && newline_free(line.drop_last())
}

/// Whether `take_line` has a line to give from `pending`.
pub open spec fn line_available(pending: Seq<u8>, at_end: bool) -> bool {
    !newline_free(pending) || (at_end && pending.len() > 0)
}

/// Accumulates the bytes read from a stream and cuts them into lines.
///
/// Its view is the bytes received and not yet handed out as a line.
pub struct LineBuffer {
    pending: Vec<u8>,
}

impl View for LineBuffer {
    type V = Seq<u8>;

    closed spec fn view(&self) -> Seq<u8> {
        self.pending@
    }
}

impl LineBuffer {
    /// An empty buffer.
    pub fn new() -> (r: Self)
        ensures
            r@ == Seq::<u8>::empty(),
    {
        LineBuffer { pending: Vec::new() }
    }

    /// Appends bytes just read from the stream.
    pub fn push_bytes(&mut self, chunk: &[u8])
        ensures
            final(self)@ == old(self)@ + chunk@,
    {
        let mut i: usize = 0;
        while i < chunk.len()
            invariant
                i <= chunk@.len(),
                self@ == old(self)@ + chunk@.subrange(0, i as int),
            decreases chunk@.len() - i,
        {
            self.pending.push(chunk[i]);
            i = i + 1;
            assert(self@ =~= old(self)@ + chunk@.subrange(0, i as int));
        }
        assert(chunk@.subrange(0, i as int) =~= chunk@);
    }

    /// Number of bytes received and not yet handed out.
    pub fn pending_len(&self) -> (r: usize)
        ensures
            r == self@.len(),
    {
        self.pending.len()
    }

    /// Hands out the next line: the bytes up to and including the first
    /// terminator, or, once the stream has ended (`at_end`), the final partial
    /// line. An empty result means that no line is available: more bytes are
    /// needed, or, at the end of the stream, the stream is exhausted.
    pub fn take_line(&mut self, at_end: bool) -> (r: Vec<u8>)
        ensures
            r@.len() > 0 <==> line_available(old(self)@, at_end),
            r@.len() == 0 ==> final(self)@ == old(self)@,
            old(self)@ == r@ + final(self)@,
            r@.len() > 0 ==> is_complete_line(r@) || (newline_free(r@) && at_end
                && final(self)@.len() == 0),
    {
        let n = self.pending.len();
        let mut i: usize = 0;
        while i < n
            invariant
                n == self@.len(),
                self@ == old(self)@,
                i <= n,
                newline_free(self@.subrange(0, i as int)),
            decreases n - i,
        {
            if self.pending[i] == NEWLINE {
                let rest = self.pending.split_off(i + 1);
                let mut line = rest;
                std::mem::swap(&mut line, &mut self.pending);
                assert(line@.drop_last() =~= old(self)@.subrange(0, i as int));
                assert(old(self)@ =~= line@ + self@);
                assert(!newline_free(old(self)@));
                return line;
            }
            assert(newline_free(self@.subrange(0, i + 1)));
            i = i + 1;
        }
        assert(self@.subrange(0, n as int) =~= self@);
        if at_end {
            let mut line = Vec::new();
            std::mem::swap(&mut line, &mut self.pending);
            assert(old(self)@ =~= line@ + self@);
            line
        } else {
            assert(old(self)@ =~= Seq::<u8>::empty() + self@);
            Vec::new()
        }
    }
}

} // verus!
