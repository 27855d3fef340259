//! Cuts a byte stream that arrives in arbitrary chunks into records, each
//! ending at a byte that a caller-supplied predicate picks.
//!
//! The framer does not read the stream itself: whoever drives it hands it
//! what the stream produced (`feed`) and asks for the next record (`poll`).
//! Bytes are buffered only until their record is complete.

use vstd::prelude::*;

verus! {

/// What the upstream stream produced.
pub enum Upstream<E> {
    /// More bytes.
    Chunk(Vec<u8>),
    /// The stream is over.
    End,
    /// The stream failed.
    Failed(E),
}

/// The answer to a poll.
#[derive(Debug, PartialEq, Eq)]
pub enum FramePoll<E> {
    /// One record.
    Record(Vec<u8>),
    /// No record is complete: feed more of the stream.
    NeedInput,
    /// The stream failed; everything buffered went out before this.
    Error(E),
    /// The stream is over and every byte went out.
    Done,
}

/// No byte of `s` ends a record under the table `ends`.
pub open spec fn free_of(s: Seq<u8>, ends: Seq<bool>) -> bool {
    forall|k: int| 0 <= k < s.len() ==> !ends[s[k] as int]
}

/// The table of a predicate that holds of `d` alone.
pub open spec fn single_byte(d: u8) -> Seq<bool> {
    Seq::new(256, |b: int| b == d as int)
}

/// A line framer over a stream whose failures are of type `E`.
pub struct ReSplit<E> {
    buf: Vec<u8>,
    err: Option<E>,
    ended: bool,
    ends: Vec<bool>,
    fed: Ghost<Seq<u8>>,
    emitted: Ghost<Seq<u8>>,
}

impl<E> ReSplit<E> {
    /// Every byte fed so far.
    pub closed spec fn fed(&self) -> Seq<u8> {
        self.fed@
    }

    /// Every byte handed out in records so far, in order.
    pub closed spec fn emitted(&self) -> Seq<u8> {
        self.emitted@
    }

    /// Bytes received and not yet handed out.
    pub closed spec fn buffered(&self) -> Seq<u8> {
        self.buf@
    }

    pub closed spec fn pending_error(&self) -> Option<E> {
        self.err
    }

    /// The upstream stream ended, or its failure was reported.
    pub closed spec fn is_ended(&self) -> bool {
        self.ended
    }

    /// For each byte value, whether that byte ends a record.
    pub closed spec fn spec_ends(&self) -> Seq<bool> {
        self.ends@
    }

    /// Nothing is lost or duplicated: what went out, then what waits, is
    /// exactly what came in.
    pub closed spec fn wf(&self) -> bool {
        &&& self.emitted@ + self.buf@ == self.fed@
        &&& self.ends@.len() == 256
    }

    /// A framer that ends records at `delimiter`.
    pub fn new(delimiter: u8) -> (r: ReSplit<E>)
        ensures
            r.wf(),
            r.spec_ends() == single_byte(delimiter),
            r.fed() == Seq::<u8>::empty(),
            r.emitted() == Seq::<u8>::empty(),
            r.buffered() == Seq::<u8>::empty(),
            r.pending_error() is None,
            !r.is_ended(),
    {
        let mut ends: Vec<bool> = Vec::new();
        let mut b: usize = 0;
        while b < 256
            invariant
                b <= 256,
                ends@ == Seq::new(b as nat, |x: int| x == delimiter as int),
            decreases 256 - b,
        {
            ends.push(b == delimiter as usize);
            b = b + 1;
            proof {
                assert(ends@ =~= Seq::new(b as nat, |x: int| x == delimiter as int));
            }
        }
        ReSplit::with_predicate(ends)
    }

    /// A framer that ends a record at each byte `b` for which `ends[b]`
    /// holds: `ends` is the predicate, written out for all 256 bytes.
    pub fn with_predicate(ends: Vec<bool>) -> (r: ReSplit<E>)
        requires
            ends@.len() == 256,
        ensures
            r.wf(),
            r.spec_ends() == ends@,
            r.fed() == Seq::<u8>::empty(),
            r.emitted() == Seq::<u8>::empty(),
            r.buffered() == Seq::<u8>::empty(),
            r.pending_error() is None,
            !r.is_ended(),
    {
        let r = ReSplit {
            buf: Vec::new(),
            err: None,
            ended: false,
            ends,
            fed: Ghost(Seq::empty()),
            emitted: Ghost(Seq::empty()),
        };
        proof {
            assert(r.emitted@ + r.buf@ =~= r.fed@);
        }
        r
    }

    /// Hands the framer what the upstream stream produced.
    pub fn feed(&mut self, item: Upstream<E>)
        requires
            old(self).wf(),
        ensures
            final(self).wf(),
            final(self).spec_ends() == old(self).spec_ends(),
            final(self).emitted() == old(self).emitted(),
            match item {
                Upstream::Chunk(c) => {
                    &&& final(self).fed() == old(self).fed() + c@
                    &&& final(self).buffered() == old(self).buffered() + c@
                    &&& final(self).pending_error() == old(self).pending_error()
                    &&& final(self).is_ended() == old(self).is_ended()
                },
                Upstream::End => {
                    &&& final(self).fed() == old(self).fed()
                    &&& final(self).buffered() == old(self).buffered()
                    &&& final(self).pending_error() == old(self).pending_error()
                    &&& final(self).is_ended()
                },
                Upstream::Failed(e) => {
                    &&& final(self).fed() == old(self).fed()
                    &&& final(self).buffered() == old(self).buffered()
                    &&& final(self).pending_error() == Some(e)
                    &&& final(self).is_ended() == old(self).is_ended()
                },
            },
    {
        match item {
            Upstream::Chunk(c) => {
                let mut c = c;
                let ghost added = c@;
                self.buf.append(&mut c);
                self.fed = Ghost(self.fed@ + added);
                proof {
                    assert(self.emitted@ + self.buf@ =~= self.fed@);
                }
            },
            Upstream::End => {
                self.ended = true;
            },
            Upstream::Failed(e) => {
                self.err = Some(e);
            },
        }
    }

    /// The position of the first byte in the buffer that ends a record.
    fn first_delimiter(&self) -> (r: Option<usize>)
        requires
            self.wf(),
        ensures
            r is None ==> free_of(self.buf@, self.ends@),
            r matches Some(i) ==> i < self.buf@.len() && self.ends@[self.buf@[i as int] as int]
                && free_of(self.buf@.subrange(0, i as int), self.ends@),
    {
        let mut i: usize = 0;
        while i < self.buf.len()
            invariant
                self.wf(),
                i <= self.buf@.len(),
                forall|k: int| 0 <= k < i ==> !self.ends@[self.buf@[k] as int],
            decreases self.buf@.len() - i,
        {
            if self.ends[self.buf[i] as usize] {
                return Some(i);
            }
            i = i + 1;
        }
        None
    }

    /// Everything buffered, as one record.
    fn flush(&mut self) -> (r: Vec<u8>)
        requires
            old(self).wf(),
        ensures
            final(self).wf(),
            r@ == old(self).buf@,
            final(self).buf@ == Seq::<u8>::empty(),
            final(self).emitted@ == old(self).emitted@ + r@,
            final(self).fed@ == old(self).fed@,
            final(self).err == old(self).err,
            final(self).ended == old(self).ended,
            final(self).ends == old(self).ends,
    {
        let r = self.buf.split_off(0);
        self.emitted = Ghost(self.emitted@ + r@);
        proof {
            assert(self.emitted@ + self.buf@ =~= self.fed@);
        }
        r
    }

    /// The next record, if one can be had without more input.
    ///
    /// A byte of the predicate ends a record, and belongs to it. Without
    /// one, a failure of the stream first flushes what is buffered as a
    /// final record and is reported on the next poll; the end of the stream
    /// flushes it likewise and then reports `Done`.
    pub fn poll(&mut self) -> (r: FramePoll<E>)
        requires
            old(self).wf(),
        ensures
            final(self).wf(),
            final(self).spec_ends() == old(self).spec_ends(),
            final(self).fed() == old(self).fed(),
            r matches FramePoll::Record(v) ==> final(self).emitted() == old(self).emitted() + v@,
            !(r is Record) ==> final(self).emitted() == old(self).emitted(),
            r is Done ==> final(self).emitted() == final(self).fed(),
            ({
                let b = old(self).buffered();
                let d = old(self).spec_ends();
                if !free_of(b, d) {
                    exists|i: int| 0 <= i < b.len() && d[b[i] as int] && free_of(b.subrange(0, i), d)
                        && r == FramePoll::<E>::Record(r->Record_0)
                        && r->Record_0@ == b.subrange(0, i + 1)
                        && final(self).buffered() == b.subrange(i + 1, b.len() as int)
                        && final(self).pending_error() == old(self).pending_error()
                        && final(self).is_ended() == old(self).is_ended()
                } else if old(self).pending_error() is Some {
                    if b.len() > 0 {
                        &&& r is Record
                        &&& r->Record_0@ == b
                        &&& final(self).buffered() == Seq::<u8>::empty()
                        &&& final(self).pending_error() == old(self).pending_error()
                        &&& final(self).is_ended() == old(self).is_ended()
                    } else {
                        &&& r == FramePoll::<E>::Error(old(self).pending_error()->Some_0)
                        &&& final(self).buffered() == Seq::<u8>::empty()
                        &&& final(self).pending_error() is None
                        &&& final(self).is_ended()
                    }
                } else if old(self).is_ended() {
                    if b.len() > 0 {
                        &&& r is Record
                        &&& r->Record_0@ == b
                        &&& final(self).buffered() == Seq::<u8>::empty()
                        &&& final(self).pending_error() is None
                        &&& final(self).is_ended()
                    } else {
                        &&& r is Done
                        &&& final(self).buffered() == Seq::<u8>::empty()
                        &&& final(self).pending_error() is None
                        &&& final(self).is_ended()
                    }
                } else {
                    &&& r is NeedInput
                    &&& final(self).buffered() == b
                    &&& final(self).pending_error() is None
                    &&& !final(self).is_ended()
                }
            }),
    {
        match self.first_delimiter() {
            Some(i) => {
                let ghost b = self.buf@;
                let n = self.buf.len();
                let mut head = self.buf.split_off(i + 1);
                std::mem::swap(&mut head, &mut self.buf);
                self.emitted = Ghost(self.emitted@ + head@);
                proof {
                    assert(n == b.len());
                    assert(self.emitted@ + self.buf@ =~= self.fed@);
                    assert(head@ == b.subrange(0, i + 1));
                }
                return FramePoll::Record(head);
            },
            None => {},
        }
        if self.err.is_some() {
            if self.buf.len() > 0 {
                return FramePoll::Record(self.flush());
            }
            let mut e: Option<E> = None;
            std::mem::swap(&mut e, &mut self.err);
            self.ended = true;
            return match e {
                Some(e) => FramePoll::Error(e),
                None => FramePoll::Done,
            };
        }
        if self.ended {
            if self.buf.len() > 0 {
                return FramePoll::Record(self.flush());
            }
            return FramePoll::Done;
        }
        FramePoll::NeedInput
    }
}

} // verus!
