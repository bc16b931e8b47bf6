//! Message body streams: a capability for pulling body data chunk by chunk,
//! with a fixed in-memory variant and a streaming variant fed by a
//! transport.
//!
//! A body is drained by repeated [`Body::next_data`] calls, which yield the
//! remaining chunks in order, then surface the pending failure (if any), and
//! finally report exhaustion; both the failure and exhaustion are terminal.
//! After a clean exhaustion, [`Body::next_trailers`] hands out the trailer
//! map, at most once.

use vstd::prelude::*;

use crate::chunk::bytes_view;

verus! {

/// Why a body read failed. A failure is terminal for the body that
/// surfaced it: no chunk or trailer follows it.
#[derive(Debug, Clone, Copy, PartialEq, Eq, Structural)]
pub enum BodyError {
    /// The transport surfaced a read failure.
    Read,
    /// The trailer frame could not be decoded.
    MalformedTrailers,
}

/// The contents of a sequence of chunks, chunk by chunk.
pub open spec fn chunks_view(chunks: Seq<bytes::Bytes>) -> Seq<Seq<u8>> {
    chunks.map_values(|b: bytes::Bytes| bytes_view(b))
}

/// Total byte count of a sequence of chunk contents.
pub open spec fn total_len(s: Seq<Seq<u8>>) -> int
    decreases s.len(),
{
    if s.len() == 0 {
        0
    } else {
        total_len(s.drop_last()) + s.last().len()
    }
}

/// Capability: an in-flight message body that one reader drives to
/// completion.
///
/// The specification-level state is: the chunks still to be delivered
/// (`pending`), the failure to be surfaced after them (`failure`), whether
/// the data phase has ended (`ended`), whether it ended with a failure
/// (`errored`), and the trailer map still to be handed out
/// (`pending_trailers`).
pub trait Body: Sized {
    /// Chunk contents not yet delivered, in delivery order.
    spec fn pending(&self) -> Seq<Seq<u8>>;

    /// The failure, if any, to be surfaced once the pending chunks are
    /// delivered.
    spec fn failure(&self) -> Option<BodyError>;

    /// Whether the data phase has ended: exhaustion or a failure was
    /// reported. Terminal.
    spec fn ended(&self) -> bool;

    /// Whether the data phase ended with a failure.
    spec fn errored(&self) -> bool;

    /// The trailer map not yet handed out, if the message carries one.
    spec fn pending_trailers(&self) -> Option<http::HeaderMap>;

    /// Pull the next chunk of body data.
    ///
    /// Delivers the pending chunks in order; once they are exhausted,
    /// surfaces the pending failure (once) or reports exhaustion; after
    /// either, every further call reports exhaustion and changes nothing.
    fn next_data(&mut self) -> (r: Option<Result<bytes::Bytes, BodyError>>)
        ensures
            old(self).ended() ==> r is None && *final(self) == *old(self),
            !old(self).ended() && old(self).pending().len() > 0 ==> {
                &&& r matches Some(rr) && rr matches Ok(b) && bytes_view(b)
                    == old(self).pending()[0]
                &&& final(self).pending() == old(self).pending().drop_first()
                &&& final(self).failure() == old(self).failure()
                &&& final(self).pending_trailers() == old(self).pending_trailers()
                &&& final(self).errored() == old(self).errored()
                &&& final(self).ended() ==> final(self).pending().len() == 0
                    && final(self).failure() is None
            },
            !old(self).ended() && old(self).pending().len() == 0 ==> match old(self).failure() {
                Some(e) => {
                    &&& r == Some(Err::<bytes::Bytes, BodyError>(e))
                    &&& final(self).ended()
                    &&& final(self).errored()
                    &&& final(self).pending().len() == 0
                    &&& final(self).failure() is None
                    &&& final(self).pending_trailers() is None
                },
                None => {
                    &&& r is None
                    &&& final(self).ended()
                    &&& final(self).errored() == old(self).errored()
                    &&& final(self).pending().len() == 0
                    &&& final(self).failure() is None
                    &&& final(self).pending_trailers() == old(self).pending_trailers()
                },
            },
    ;

    /// Hand out the trailer map, at most once, and only after `next_data`
    /// has reported clean exhaustion; before exhaustion, or after a
    /// failure, reports empty and changes nothing.
    fn next_trailers(&mut self) -> (r: Option<Result<http::HeaderMap, BodyError>>)
        ensures
            !old(self).ended() || old(self).errored() ==> r is None && *final(self) == *old(self),
            old(self).ended() && !old(self).errored() ==> match old(self).pending_trailers() {
                Some(m) => {
                    &&& r == Some(Ok::<http::HeaderMap, BodyError>(m))
                    &&& final(self).pending_trailers() is None
                    &&& final(self).ended()
                    &&& !final(self).errored()
                    &&& final(self).pending() == old(self).pending()
                    &&& final(self).failure() == old(self).failure()
                },
                None => r is None && *final(self) == *old(self),
            },
    ;

    /// Advisory size bounds on the bytes still to be delivered: a sound
    /// lower bound and, when present, a sound upper bound. Never to be used
    /// to decide termination.
    fn size_hint(&self) -> (r: (usize, Option<usize>))
        ensures
            r.0 <= total_len(self.pending()),
            r.1 matches Some(u) ==> total_len(self.pending()) <= u,
    ;
}

/// A body backed by at most one complete in-memory buffer.
///
/// It yields its buffer as a single chunk (if it has one), then reports
/// exhaustion forever; it never suspends, never fails, and carries no
/// trailers. It lets call sites that hold a complete payload satisfy the
/// same capability as a streaming body.
pub struct FixedBody {
    buf: Option<bytes::Bytes>,
}

impl FixedBody {
    /// Build a fixed body from an optional pre-filled buffer. With no
    /// buffer the body is exhausted from the start.
    pub fn new(buf: Option<bytes::Bytes>) -> (r: FixedBody)
        ensures
            match buf {
                Some(b) => !r.ended() && r.pending() == seq![bytes_view(b)],
                None => r.ended() && r.pending().len() == 0,
            },
            r.failure() is None,
            !r.errored(),
            r.pending_trailers() is None,
    {
        FixedBody { buf }
    }
}

impl Body for FixedBody {
    closed spec fn pending(&self) -> Seq<Seq<u8>> {
        match self.buf {
            Some(b) => seq![bytes_view(b)],
            None => Seq::empty(),
        }
    }

    closed spec fn failure(&self) -> Option<BodyError> {
        None
    }

    closed spec fn ended(&self) -> bool {
        self.buf is None
    }

    closed spec fn errored(&self) -> bool {
        false
    }

    closed spec fn pending_trailers(&self) -> Option<http::HeaderMap> {
        None
    }

    fn next_data(&mut self) -> (r: Option<Result<bytes::Bytes, BodyError>>) {
        let taken = self.buf.take();
        proof {
            if old(self).buf is Some {
                assert(old(self).pending() =~= seq![bytes_view(old(self).buf->0)]);
                assert(self.pending() =~= old(self).pending().drop_first());
            }
        }
        match taken {
            Some(b) => Some(Ok(b)),
            None => None,
        }
    }

    fn next_trailers(&mut self) -> (r: Option<Result<http::HeaderMap, BodyError>>) {
        None
    }

    fn size_hint(&self) -> (r: (usize, Option<usize>)) {
        match &self.buf {
            Some(b) => {
                let n = b.len();
                proof {
                    assert(self.pending() =~= seq![bytes_view(*b)]);
                    assert(self.pending().drop_last() =~= Seq::<Seq<u8>>::empty());
                    assert(self.pending().last() == bytes_view(*b));
                    assert(total_len(Seq::<Seq<u8>>::empty()) == 0);
                    assert(total_len(self.pending()) == bytes_view(*b).len());
                }
                (n, Some(n))
            },
            None => (0, Some(0)),
        }
    }
}

/// A body backed by an incremental source: the transport queues chunks (and
/// possibly a terminal failure and a trailer map) into it, and the single
/// reader drains them in order.
pub struct StreamBody {
    chunks: Vec<bytes::Bytes>,
    fail: Option<BodyError>,
    trailers: Option<http::HeaderMap>,
    done: bool,
    err_reported: bool,
}

impl StreamBody {
    /// An empty streaming body: no chunks, no failure, no trailers, not
    /// ended.
    pub fn new() -> (r: StreamBody)
        ensures
            r.pending().len() == 0,
            r.failure() is None,
            !r.ended(),
            !r.errored(),
            r.pending_trailers() is None,
    {
        StreamBody { chunks: Vec::new(), fail: None, trailers: None, done: false, err_reported: false }
    }

    /// Queue one more chunk, to be delivered after those already pending.
    pub fn push_chunk(&mut self, b: bytes::Bytes)
        requires
            !old(self).ended(),
        ensures
            final(self).pending() == old(self).pending().push(bytes_view(b)),
            final(self).failure() == old(self).failure(),
            final(self).ended() == old(self).ended(),
            final(self).errored() == old(self).errored(),
            final(self).pending_trailers() == old(self).pending_trailers(),
    {
        self.chunks.push(b);
        proof {
            assert(self.pending() =~= old(self).pending().push(bytes_view(b)));
        }
    }

    /// Record the failure the transport surfaced; it will be delivered once
    /// the pending chunks are drained, and is terminal.
    pub fn push_error(&mut self, e: BodyError)
        requires
            !old(self).ended(),
        ensures
            final(self).failure() == Some(e),
            final(self).pending() == old(self).pending(),
            final(self).ended() == old(self).ended(),
            final(self).errored() == old(self).errored(),
            final(self).pending_trailers() == old(self).pending_trailers(),
    {
        self.fail = Some(e);
    }

    /// Attach the trailer map, to be handed out after clean exhaustion.
    pub fn set_trailers(&mut self, t: http::HeaderMap)
        requires
            !old(self).ended(),
            !old(self).errored(),
        ensures
            final(self).pending_trailers() == Some(t),
            final(self).pending() == old(self).pending(),
            final(self).failure() == old(self).failure(),
            final(self).ended() == old(self).ended(),
            final(self).errored() == old(self).errored(),
    {
        self.trailers = Some(t);
    }
}

impl Body for StreamBody {
    closed spec fn pending(&self) -> Seq<Seq<u8>> {
        chunks_view(self.chunks@)
    }

    closed spec fn failure(&self) -> Option<BodyError> {
        self.fail
    }

    closed spec fn ended(&self) -> bool {
        self.done
    }

    closed spec fn errored(&self) -> bool {
        self.err_reported
    }

    closed spec fn pending_trailers(&self) -> Option<http::HeaderMap> {
        if self.err_reported {
            None
        } else {
            self.trailers
        }
    }

    fn next_data(&mut self) -> (r: Option<Result<bytes::Bytes, BodyError>>) {
        if self.done {
            return None;
        }
        if self.chunks.len() > 0 {
            let b = self.chunks.remove(0);
            proof {
                assert(self.pending() =~= old(self).pending().drop_first());
            }
            return Some(Ok(b));
        }
        self.done = true;
        match self.fail {
            Some(e) => {
                self.fail = None;
                self.err_reported = true;
                Some(Err(e))
            },
            None => None,
        }
    }

    fn next_trailers(&mut self) -> (r: Option<Result<http::HeaderMap, BodyError>>) {
        if !self.done || self.err_reported {
            return None;
        }
        match self.trailers.take() {
            Some(m) => Some(Ok(m)),
            None => None,
        }
    }

    fn size_hint(&self) -> (r: (usize, Option<usize>)) {
        let mut total: usize = 0;
        let mut i: usize = 0;
        while i < self.chunks.len()
            invariant
                i <= self.chunks.len(),
                total <= total_len(self.pending().take(i as int)),
            decreases self.chunks.len() - i,
        {
            let n = self.chunks[i].len();
            proof {
                assert(self.pending().take(i + 1).drop_last() =~= self.pending().take(i as int));
                assert(self.pending().take(i + 1).last() == bytes_view(self.chunks@[i as int]));
            }
            total = total.saturating_add(n);
            i = i + 1;
        }
        proof {
            assert(self.pending().take(self.chunks@.len() as int) =~= self.pending());
        }
        (total, None)
    }
}

/// Drain a body to the end of its data phase.
///
/// For every sequence of chunks pending in the body, the chunks collected
/// by repeated `next_data` calls, until exhaustion or a failure, are
/// exactly that sequence, in order; a pending failure is then surfaced
/// exactly once and nothing follows it.
pub fn drain<B: Body>(body: &mut B) -> (r: (Vec<bytes::Bytes>, Option<BodyError>))
    requires
        !old(body).ended(),
    ensures
        chunks_view(r.0@) == old(body).pending(),
        r.1 == old(body).failure(),
        final(body).ended(),
        final(body).pending().len() == 0,
        r.1 is Some ==> final(body).errored(),
        r.1 is None ==> final(body).errored() == old(body).errored()
            && final(body).pending_trailers() == old(body).pending_trailers(),
{
    let mut out: Vec<bytes::Bytes> = Vec::new();
    proof {
        assert(chunks_view(out@) + body.pending() =~= old(body).pending());
    }
    loop
        invariant
            chunks_view(out@) + body.pending() == old(body).pending(),
            body.failure() == old(body).failure(),
            body.ended() ==> body.pending().len() == 0 && body.failure() is None,
            body.pending_trailers() == old(body).pending_trailers(),
            body.errored() == old(body).errored(),
        decreases body.pending().len() + (if body.ended() {
            0int
        } else {
            1int
        }),
    {
        let ghost prev = body.pending();
        match body.next_data() {
            Some(Ok(b)) => {
                out.push(b);
                proof {
                    assert(chunks_view(out@) + body.pending() =~= old(body).pending());
                }
            },
            Some(Err(e)) => {
                proof {
                    assert(chunks_view(out@) + body.pending() =~= chunks_view(out@));
                    assert(chunks_view(out@) =~= old(body).pending());
                }
                return (out, Some(e));
            },
            None => {
                proof {
                    assert(chunks_view(out@) =~= old(body).pending());
                }
                return (out, None);
            },
        }
    }
}

} // verus!
