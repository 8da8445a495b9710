//! In-memory sequential I/O targets: a line-oriented readable source, a
//! byte-oriented readable source, and a writable sink.
//!
//! These are the concrete transports the state machine owns. The view of a
//! source is the sequence of bytes not yet consumed; the view of a sink is
//! the sequence of bytes written so far.

use vstd::prelude::*;

verus! {

/// The byte that ends a physical line in a source.
pub const NEWLINE: u8 = 10;

/// Length of the first physical line of `s`, terminator included if present:
/// the number of bytes up to and including the first newline, or all of `s`
/// if it has none.
pub open spec fn line_len(s: Seq<u8>) -> nat
    decreases s.len(),
{
    if s.len() == 0 {
        0
    } else if s[0] == NEWLINE {
        1
    } else {
        1 + line_len(s.skip(1))
    }
}

pub proof fn lemma_line_len_bound(s: Seq<u8>)
    ensures
        line_len(s) <= s.len(),
    decreases s.len(),
{
    if s.len() != 0 && s[0] != NEWLINE {
        lemma_line_len_bound(s.skip(1));
    }
}

/// If the first `j` bytes of `s` are not newlines and byte `j` is a newline
/// (or `s` ends at `j`), the first line is exactly the first `j + 1` bytes
/// (respectively, the first `j`).
pub proof fn lemma_line_len_at(s: Seq<u8>, j: int)
    requires
        0 <= j <= s.len(),
        forall|k: int| 0 <= k < j ==> s[k] != NEWLINE,
        j == s.len() || s[j] == NEWLINE,
    ensures
        line_len(s) == if j < s.len() {
            j + 1
        } else {
            j
        },
    decreases j,
{
    if j == 0 {
    } else {
        assert(s[0] != NEWLINE);
        let t = s.skip(1);
        assert(forall|k: int| 0 <= k < j - 1 ==> t[k] == s[k + 1] && t[k] != NEWLINE);
        lemma_line_len_at(t, j - 1);
    }
}

/// A sequential line-oriented readable source over an in-memory byte buffer.
pub struct LineSource {
    pub data: Vec<u8>,
    pub pos: usize,
}

impl View for LineSource {
    type V = Seq<u8>;

    open spec fn view(&self) -> Seq<u8> {
        self.data@.skip(self.pos as int)
    }
}

impl LineSource {
    /// The read position never passes the end of the buffer.
    pub open spec fn wf(&self) -> bool {
        self.pos <= self.data@.len()
    }

    pub fn new(data: Vec<u8>) -> (s: LineSource)
        ensures
            s.wf(),
            s@ == data@,
    {
        let s = LineSource { data, pos: 0 };
        proof {
            assert(s@ =~= s.data@);
        }
        s
    }

    /// Reads one physical line, terminator included if present, and appends
    /// it to `buf`. At the end of the source this appends nothing.
    pub fn read_line(&mut self, buf: &mut Vec<u8>)
        requires
            old(self).wf(),
        ensures
            final(self).wf(),
            final(self)@ == old(self)@.skip(line_len(old(self)@) as int),
            final(buf)@ == old(buf)@ + old(self)@.take(line_len(old(self)@) as int),
    {
        let ghost rem = self@;
        let mut end = self.pos;
        while end < self.data.len() && self.data[end] != NEWLINE
            invariant
                self == old(self),
                old(self).pos <= end <= self.data@.len(),
                forall|k: int| old(self).pos <= k < end ==> self.data@[k] != NEWLINE,
            decreases self.data@.len() - end,
        {
            end = end + 1;
        }
        let stop = if end < self.data.len() {
            end + 1
        } else {
            end
        };
        proof {
            assert(forall|k: int|
                0 <= k < end - old(self).pos ==> rem[k] == self.data@[k + old(self).pos]);
            lemma_line_len_at(rem, end - old(self).pos);
            assert(stop - old(self).pos == line_len(rem));
        }
        let mut i = self.pos;
        while i < stop
            invariant
                self == old(self),
                old(self).pos <= i <= stop,
                stop <= self.data@.len(),
                buf@ == old(buf)@ + self.data@.subrange(old(self).pos as int, i as int),
            decreases stop - i,
        {
            let b = self.data[i];
            buf.push(b);
            proof {
                assert(buf@ =~= old(buf)@ + self.data@.subrange(old(self).pos as int, i + 1));
            }
            i = i + 1;
        }
        self.pos = stop;
        proof {
            assert(self.data@.subrange(old(self).pos as int, stop as int) =~= rem.take(
                line_len(rem) as int,
            ));
            assert(self@ =~= rem.skip(line_len(rem) as int));
        }
    }
}

/// A sequential byte-oriented readable source over an in-memory byte buffer.
pub struct ByteSource {
    pub data: Vec<u8>,
    pub pos: usize,
}

impl View for ByteSource {
    type V = Seq<u8>;

    open spec fn view(&self) -> Seq<u8> {
        self.data@.skip(self.pos as int)
    }
}

impl ByteSource {
    /// The read position never passes the end of the buffer.
    pub open spec fn wf(&self) -> bool {
        self.pos <= self.data@.len()
    }

    pub fn new(data: Vec<u8>) -> (s: ByteSource)
        ensures
            s.wf(),
            s@ == data@,
    {
        let s = ByteSource { data, pos: 0 };
        proof {
            assert(s@ =~= s.data@);
        }
        s
    }

    /// Reads into `buf[start..]`, overwriting in place, as many bytes as the
    /// source still holds but no more than fit. Returns how many were read;
    /// zero only when `start` is at the end of `buf` or the source is dry.
    pub fn read_into(&mut self, buf: &mut Vec<u8>, start: usize) -> (n: usize)
        requires
            old(self).wf(),
            start <= old(buf)@.len(),
        ensures
            final(self).wf(),
            n == vstd::math::min((old(buf)@.len() - start) as int, old(self)@.len() as int),
            final(self)@ == old(self)@.skip(n as int),
            final(buf)@.len() == old(buf)@.len(),
            final(buf)@ == old(buf)@.take(start as int) + old(self)@.take(n as int) + old(
                buf,
            )@.skip(start + n),
    {
        let ghost rem = self@;
        let mut i: usize = 0;
        let room = buf.len() - start;
        let left = self.data.len() - self.pos;
        let n = if room < left {
            room
        } else {
            left
        };
        while i < n
            invariant
                self == old(self),
                0 <= i <= n,
                n <= old(buf)@.len() - start,
                n <= rem.len(),
                rem == self.data@.skip(self.pos as int),
                self.pos + n <= self.data@.len(),
                self.data@.len() <= usize::MAX,
                old(buf)@.len() <= usize::MAX,
                buf@.len() == old(buf)@.len(),
                buf@ == old(buf)@.take(start as int) + rem.take(i as int) + old(buf)@.skip(
                    start + i,
                ),
            decreases n - i,
        {
            let b = self.data[self.pos + i];
            buf.set(start + i, b);
            proof {
                assert(buf@ =~= old(buf)@.take(start as int) + rem.take(i + 1) + old(buf)@.skip(
                    start + i + 1,
                ));
            }
            i = i + 1;
        }
        self.pos = self.pos + n;
        proof {
            assert(self@ =~= rem.skip(n as int));
        }
        n
    }
}

/// A sequential writable sink over an in-memory byte buffer.
pub struct ByteSink {
    pub data: Vec<u8>,
}

impl View for ByteSink {
    type V = Seq<u8>;

    open spec fn view(&self) -> Seq<u8> {
        self.data@
    }
}

impl ByteSink {
    pub fn new() -> (s: ByteSink)
        ensures
            s@ == Seq::<u8>::empty(),
    {
        let s = ByteSink { data: Vec::new() };
        proof {
            assert(s@ =~= Seq::<u8>::empty());
        }
        s
    }

    /// Appends all of `bytes` to the sink.
    pub fn write_all(&mut self, bytes: &Vec<u8>)
        ensures
            final(self)@ == old(self)@ + bytes@,
    {
        let mut i: usize = 0;
        while i < bytes.len()
            invariant
                0 <= i <= bytes@.len(),
                self@ == old(self)@ + bytes@.take(i as int),
            decreases bytes@.len() - i,
        {
            let b = bytes[i];
            self.data.push(b);
            proof {
                assert(self@ =~= old(self)@ + bytes@.take(i + 1));
            }
            i = i + 1;
        }
        proof {
            assert(self@ =~= old(self)@ + bytes@);
        }
    }

    /// Appends one byte to the sink.
    pub fn write_byte(&mut self, byte: u8)
        ensures
            final(self)@ == old(self)@.push(byte),
    {
        self.data.push(byte);
    }

    /// Forces pending output out; an in-memory sink holds nothing back.
    pub fn flush(&mut self)
        ensures
            final(self)@ == old(self)@,
    {
    }
}

} // verus!
