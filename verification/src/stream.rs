//! Bridging push-based and pull-based byte streams.
//!
//! The transport's native body is a sequence of discrete chunks; callers
//! want buffered reads into a buffer of their own size.  The adapters here
//! go both ways without ever holding more than one chunk, and without
//! losing, duplicating or reordering a byte: each adapter's well-formedness
//! ties what arrived to what was handed on.

use vstd::prelude::*;

verus! {

/// A push-based source of byte chunks: the transport's native shape.
/// An empty chunk means end of stream.  Implementations do the I/O;
/// nothing is assumed about what they return.
pub trait ChunkSource {
    fn next_chunk(&mut self) -> Result<Vec<u8>, String>;
}

/// A pull-based reader: one bounded read into a fresh buffer.  An empty
/// result means end of stream.  Implementations do the I/O; nothing is
/// assumed about what they return.
pub trait ByteReader {
    fn read_at_most(&mut self, max: usize) -> Result<Vec<u8>, String>;
}

/// Push to pull: buffers at most the one chunk that was not yet fully
/// consumed.  A read drains the buffered remainder first, and polls the
/// source only when the buffer is empty.
pub struct ChunkReader<S> {
    source: S,
    buf: Vec<u8>,
    pos: usize,
    done: bool,
    arrived: Ghost<Seq<u8>>,
    delivered: Ghost<Seq<u8>>,
}

/// From `a + x == a + y` it follows that `x == y`.
proof fn lemma_concat_cancel_left(a: Seq<u8>, x: Seq<u8>, y: Seq<u8>)
    requires
        a + x == a + y,
    ensures
        x == y,
{
    assert((a + x).len() == (a + y).len());
    assert((a + x).len() == a.len() + x.len());
    assert((a + y).len() == a.len() + y.len());
    assert(x.len() == y.len());
    assert forall|i: int| 0 <= i < x.len() implies x[i] == y[i] by {
        assert((a + x)[a.len() + i] == x[i]);
        assert((a + y)[a.len() + i] == y[i]);
    }
    assert(x =~= y);
}

impl<S> ChunkReader<S> {
    /// The not-yet-consumed remainder of the last chunk.
    pub closed spec fn buffered(&self) -> Seq<u8> {
        self.buf@.skip(self.pos as int)
    }

    /// Every byte the source has handed over, in order.
    pub closed spec fn arrived(&self) -> Seq<u8> {
        self.arrived@
    }

    /// Every byte handed on to readers, in order.
    pub closed spec fn delivered(&self) -> Seq<u8> {
        self.delivered@
    }

    /// Whether the source has reported end of stream.
    pub closed spec fn ended(&self) -> bool {
        self.done
    }

    /// Well-formedness: what arrived is exactly what was delivered followed
    /// by what is still buffered — nothing lost, duplicated or reordered —
    /// and after end of stream nothing is left buffered.
    pub closed spec fn wf(&self) -> bool {
        &&& self.pos <= self.buf@.len()
        &&& self.arrived() == self.delivered() + self.buffered()
        &&& (self.ended() ==> self.buffered().len() == 0)
    }

    pub fn new(source: S) -> (r: Self)
        ensures
            r.wf(),
            r.arrived().len() == 0,
            r.delivered().len() == 0,
            !r.ended(),
    {
        let r = ChunkReader {
            source,
            buf: Vec::new(),
            pos: 0,
            done: false,
            arrived: Ghost(Seq::empty()),
            delivered: Ghost(Seq::empty()),
        };
        assert(r.buffered() =~= Seq::<u8>::empty());
        assert(r.arrived() =~= r.delivered() + r.buffered());
        r
    }

    /// Law: delivery preserves stream order.  What was handed to readers is
    /// always a prefix of what arrived from the source.
    pub proof fn lemma_delivered_prefix_of_arrived(&self)
        requires
            self.wf(),
        ensures
            self.delivered() == self.arrived().take(self.delivered().len() as int),
    {
        assert(self.arrived().take(self.delivered().len() as int) =~= self.delivered());
    }

    /// Reads up to `max` bytes: first the buffered remainder, then, only
    /// when the buffer is empty, new chunks from the source.  A short read
    /// happens only at end of stream or when the source fails after some
    /// bytes were already obtained; a failure with nothing read is handed
    /// back and changes nothing.
    #[verifier::loop_isolation(false)]
    pub fn read(&mut self, max: usize) -> (r: Result<Vec<u8>, String>) where S: ChunkSource
        requires
            old(self).wf(),
        ensures
            final(self).wf(),
            match r {
                Ok(bytes) => {
                    &&& bytes@.len() <= max
                    &&& final(self).delivered() == old(self).delivered() + bytes@
                    &&& (old(self).buffered().len() >= max ==> bytes@ == old(self).buffered()
                        .take(max as int) && final(self).arrived() == old(self).arrived())
                    &&& (bytes@.len() < max ==> final(self).buffered().len() == 0)
                    &&& (bytes@.len() == 0 && max > 0 ==> final(self).ended())
                },
                Err(_) => {
                    &&& final(self).delivered() == old(self).delivered()
                    &&& final(self).buffered() == old(self).buffered()
                    &&& final(self).arrived() == old(self).arrived()
                    &&& old(self).buffered().len() == 0
                },
            },
    {
        let mut out: Vec<u8> = Vec::new();
        assert(out@ =~= old(self).buffered().take(0));
        assert(self.delivered() + out@ =~= self.delivered());
        loop
            invariant
                self.wf(),
                out@.len() <= max,
                self.delivered() == old(self).delivered() + out@,
                old(self).buffered().len() >= max ==> (out@ == old(self).buffered().take(
                    out@.len() as int,
                ) && self.arrived() == old(self).arrived()),
                (out@.len() == 0 && self.buffered().len() == 0) ==> (self.arrived() == old(
                    self,
                ).arrived() && old(self).buffered().len() == 0),
            decreases max - out.len(), (if self.done {
                0int
            } else {
                1int
            }), (if self.pos < self.buf.len() {
                0int
            } else {
                1int
            }),
        {
            if out.len() >= max {
                return Ok(out);
            }
            if self.pos < self.buf.len() {
                // Drain the buffered remainder.
                let avail = self.buf.len() - self.pos;
                let want = max - out.len();
                let n = if want < avail {
                    want
                } else {
                    avail
                };
                let ghost out0 = out@;
                let ghost buffered0 = self.buffered();
                let ghost delivered0 = self.delivered();
                let ghost pos0 = self.pos as int;
                let mut k: usize = 0;
                while k < n
                    invariant
                        k <= n,
                        self.pos == pos0,
                        out@ == out0 + self.buf@.skip(pos0).take(k as int),
                    decreases n - k,
                {
                    let b = self.buf[self.pos + k];
                    out.push(b);
                    assert(out@ =~= out0 + self.buf@.skip(pos0).take(k + 1));
                    k = k + 1;
                }
                proof {
                    self.delivered@ = self.delivered@ + buffered0.take(n as int);
                }
                self.pos = self.pos + n;
                proof {
                    // The drained prefix moved from buffered to delivered.
                    assert(buffered0.take(n as int) + self.buffered() =~= buffered0);
                    assert(self.delivered() + self.buffered() =~= delivered0 + buffered0);
                    assert(self.wf());
                    assert(self.delivered() =~= old(self).delivered() + out@);
                    if old(self).buffered().len() >= max {
                        // out was a prefix of the original buffer and grew
                        // within it.
                        assert(old(self).delivered() + (out0 + buffered0) == old(self).delivered()
                            + old(self).buffered());
                        lemma_concat_cancel_left(
                            old(self).delivered(),
                            out0 + buffered0,
                            old(self).buffered(),
                        );
                        assert(out@ =~= old(self).buffered().take(out@.len() as int));
                    }
                }
            } else if self.done {
                proof {
                    if old(self).buffered().len() >= max {
                        assert(old(self).delivered() + out@ == old(self).delivered() + old(
                            self,
                        ).buffered());
                        assert(out@ =~= old(self).buffered());
                        assert(false);
                    }
                }
                return Ok(out);
            } else {
                assert(self.buffered() =~= Seq::<u8>::empty());
                proof {
                    if old(self).buffered().len() >= max {
                        assert(self.delivered() + self.buffered() == old(self).delivered() + out@);
                        assert(old(self).delivered() + out@ == old(self).delivered() + old(
                            self,
                        ).buffered());
                        assert(out@ =~= old(self).buffered());
                        assert(false);
                    }
                }
                match self.source.next_chunk() {
                    Ok(c) => {
                        if c.len() == 0 {
                            self.done = true;
                            return Ok(out);
                        } else {
                            proof {
                                self.arrived@ = self.arrived@ + c@;
                            }
                            self.buf = c;
                            self.pos = 0;
                            proof {
                                assert(self.buffered() =~= self.buf@);
                                assert(self.delivered() + Seq::<u8>::empty() =~= self.delivered());
                                assert(self.arrived() =~= self.delivered() + self.buffered());
                            }
                        }
                    },
                    Err(e) => {
                        if out.len() == 0 {
                            return Err(e);
                        } else {
                            return Ok(out);
                        }
                    },
                }
            }
        }
    }
}

/// Pull to push: wraps a pull-based reader so the transport can poll it
/// chunk by chunk.  Each poll issues one bounded read; a zero-length read
/// is end of stream.  A reader that hands back more than was asked for
/// (which a conforming one never does) loses nothing: the excess is kept
/// and served by later polls.
pub struct ReaderChunks<R> {
    reader: R,
    pending: Vec<u8>,
    pos: usize,
    done: bool,
    obtained: Ghost<Seq<u8>>,
    produced: Ghost<Seq<u8>>,
}

/// The most bytes one poll hands the transport.
pub const CHUNK_LIMIT: usize = 16384;

impl<R> ReaderChunks<R> {
    /// Every byte handed to the transport, in order.
    pub closed spec fn produced(&self) -> Seq<u8> {
        self.produced@
    }

    /// Every byte the reader has handed over, in order.
    pub closed spec fn obtained(&self) -> Seq<u8> {
        self.obtained@
    }

    /// The excess of an oversized read, not yet handed to the transport.
    pub closed spec fn buffered(&self) -> Seq<u8> {
        self.pending@.skip(self.pos as int)
    }

    /// Whether the reader has reported end of stream.
    pub closed spec fn ended(&self) -> bool {
        self.done
    }

    /// Well-formedness: what the reader handed over is exactly what was
    /// handed to the transport followed by what is still buffered, and
    /// after end of stream nothing is left buffered.
    pub closed spec fn wf(&self) -> bool {
        &&& self.pos <= self.pending@.len()
        &&& self.obtained() == self.produced() + self.buffered()
        &&& (self.ended() ==> self.buffered().len() == 0)
    }

    pub fn new(reader: R) -> (r: Self)
        ensures
            r.wf(),
            r.produced().len() == 0,
            r.obtained().len() == 0,
            !r.ended(),
    {
        let r = ReaderChunks {
            reader,
            pending: Vec::new(),
            pos: 0,
            done: false,
            obtained: Ghost(Seq::empty()),
            produced: Ghost(Seq::empty()),
        };
        assert(r.buffered() =~= Seq::<u8>::empty());
        assert(r.obtained() =~= r.produced() + r.buffered());
        r
    }

    /// One chunk of at most [`CHUNK_LIMIT`] bytes: any buffered excess
    /// first, then one bounded read; empty exactly at end of stream, and
    /// forever after.
    #[verifier::loop_isolation(false)]
    pub fn next_chunk(&mut self) -> (r: Result<Vec<u8>, String>) where R: ByteReader
        requires
            old(self).wf(),
        ensures
            final(self).wf(),
            match r {
                Ok(c) => {
                    &&& c@.len() <= CHUNK_LIMIT
                    &&& final(self).produced() == old(self).produced() + c@
                    &&& (old(self).ended() ==> c@.len() == 0)
                    &&& (c@.len() == 0 ==> final(self).ended())
                    &&& (old(self).buffered().len() > 0 ==> c@ == old(self).buffered().take(
                        vstd::math::min(old(self).buffered().len() as int, CHUNK_LIMIT as int),
                    ) && final(self).obtained() == old(self).obtained())
                },
                Err(_) => final(self).produced() == old(self).produced() && final(self)
                    .buffered() == old(self).buffered() && final(self).ended() == old(
                    self,
                ).ended(),
            },
    {
        if self.pos < self.pending.len() {
            // Serve the buffered excess of an earlier oversized read.
            let avail = self.pending.len() - self.pos;
            let n = if avail < CHUNK_LIMIT {
                avail
            } else {
                CHUNK_LIMIT
            };
            let ghost buffered0 = self.buffered();
            let ghost pos0 = self.pos as int;
            let mut out: Vec<u8> = Vec::new();
            let mut k: usize = 0;
            while k < n
                invariant
                    k <= n,
                    self.pos == pos0,
                    out@ == self.pending@.skip(pos0).take(k as int),
                decreases n - k,
            {
                let b = self.pending[self.pos + k];
                out.push(b);
                assert(out@ =~= self.pending@.skip(pos0).take(k + 1));
                k = k + 1;
            }
            proof {
                self.produced@ = self.produced@ + buffered0.take(n as int);
            }
            self.pos = self.pos + n;
            proof {
                assert(buffered0.take(n as int) + self.buffered() =~= buffered0);
                assert(self.obtained() =~= self.produced() + self.buffered());
            }
            return Ok(out);
        }
        if self.done {
            let c: Vec<u8> = Vec::new();
            assert(self.produced() + c@ =~= self.produced());
            return Ok(c);
        }
        assert(self.buffered() =~= Seq::<u8>::empty());
        match self.reader.read_at_most(CHUNK_LIMIT) {
            Ok(c) => {
                proof {
                    self.obtained@ = self.obtained@ + c@;
                }
                if c.len() == 0 {
                    self.done = true;
                    proof {
                        self.produced@ = self.produced@ + c@;
                        assert(self.produced() =~= old(self).produced());
                        assert(self.obtained() =~= self.produced() + self.buffered());
                    }
                    Ok(c)
                } else if c.len() <= CHUNK_LIMIT {
                    proof {
                        self.produced@ = self.produced@ + c@;
                        assert(self.obtained() =~= self.produced() + self.buffered());
                    }
                    Ok(c)
                } else {
                    // Oversized: hand over the first CHUNK_LIMIT bytes and
                    // keep the rest for later polls.
                    let ghost whole = c@;
                    let mut out: Vec<u8> = Vec::new();
                    let mut k: usize = 0;
                    while k < CHUNK_LIMIT
                        invariant
                            k <= CHUNK_LIMIT,
                            CHUNK_LIMIT < c@.len(),
                            c@ == whole,
                            out@ == whole.take(k as int),
                        decreases CHUNK_LIMIT - k,
                    {
                        let b = c[k];
                        out.push(b);
                        assert(out@ =~= whole.take(k + 1));
                        k = k + 1;
                    }
                    self.pending = c;
                    self.pos = CHUNK_LIMIT;
                    proof {
                        self.produced@ = self.produced@ + out@;
                        assert(out@ + self.buffered() =~= whole);
                        assert(self.obtained() =~= self.produced() + self.buffered());
                    }
                    Ok(out)
                }
            },
            Err(e) => Err(e),
        }
    }
}

} // verus!