//! Stream driver: feeds the bytes of a response body through the frame
//! buffer and the classifier, and decides when the stream ends.
use vstd::prelude::*;
use crate::classify::{Fragment, FragmentView, StreamError, Verdict, classify_event_frame, event_frame_step, views};
use crate::framing::{FrameBuffer, Framing, lemma_next_split_bounds, lemma_next_split_extend, next_split};
use crate::gemini::{classify_object_frame, object_frame_step};

verus! {

/// Where a stream stands.
#[derive(Debug)]
pub enum Status {
    /// More bytes may come.
    Open,
    /// The stream ended with success.
    Finished,
    /// The stream ended with this failure.
    Failed(StreamError),
}

/// What the decoder has done with the bytes so far: the fragments it handed
/// out, where the stream stands, and the bytes of a frame not yet complete.
pub struct Decoded {
    pub fragments: Seq<FragmentView>,
    pub status: Status,
    pub pending: Seq<u8>,
}

/// What one frame yields under a framing.
pub open spec fn frame_step(framing: Framing, verbose: bool, frame: Seq<u8>) -> (Seq<FragmentView>, Verdict) {
    match framing {
        Framing::EventStream => event_frame_step(verbose, frame),
        Framing::ObjectStream => object_frame_step(frame),
    }
}

/// Takes every complete frame out of `buf`, in order, until the bytes run out
/// of complete frames or a frame ends the stream.
pub open spec fn drain(framing: Framing, verbose: bool, buf: Seq<u8>) -> Decoded
    decreases buf.len(),
{
    match next_split(framing, buf) {
        Some((a, e, c)) => if 0 <= a <= e <= c <= buf.len() && a < c {
            let (out, verdict) = frame_step(framing, verbose, buf.subrange(a, e));
            match verdict {
                Verdict::Continue => {
                    let d = drain(framing, verbose, buf.subrange(c, buf.len() as int));
                    Decoded { fragments: out + d.fragments, ..d }
                },
                Verdict::Finish => Decoded { fragments: out, status: Status::Finished, pending: Seq::empty() },
                Verdict::Fail(err) => Decoded { fragments: out, status: Status::Failed(err), pending: Seq::empty() },
            }
        } else {
            Decoded { fragments: Seq::empty(), status: Status::Open, pending: buf }
        },
        None => Decoded { fragments: Seq::empty(), status: Status::Open, pending: buf },
    }
}

/// The state before any byte.
pub open spec fn start_state() -> Decoded {
    Decoded { fragments: Seq::empty(), status: Status::Open, pending: Seq::empty() }
}

/// The state after one more read of `chunk`. Once the stream has ended,
/// further bytes change nothing.
pub open spec fn feed_state(framing: Framing, verbose: bool, s: Decoded, chunk: Seq<u8>) -> Decoded {
    if s.status is Open {
        let d = drain(framing, verbose, s.pending + chunk);
        Decoded { fragments: s.fragments + d.fragments, ..d }
    } else {
        s
    }
}

/// The state after the reads `chunks`, in order.
pub open spec fn run(framing: Framing, verbose: bool, chunks: Seq<Seq<u8>>) -> Decoded
    decreases chunks.len(),
{
    if chunks.len() == 0 {
        start_state()
    } else {
        feed_state(framing, verbose, run(framing, verbose, chunks.drop_last()), chunks.last())
    }
}

/// All the bytes of `chunks`, in order.
pub open spec fn concat(chunks: Seq<Seq<u8>>) -> Seq<u8>
    decreases chunks.len(),
{
    if chunks.len() == 0 {
        Seq::empty()
    } else {
        concat(chunks.drop_last()) + chunks.last()
    }
}

/// Whether a byte is not whitespace.
pub open spec fn is_content(b: u8) -> bool {
    !(b == 0x20 || b == 0x09 || b == 0x0a || b == 0x0d)
}

/// The state once the body has ended: bytes left over that are not all
/// whitespace are read as one last frame; a stream still open then ends
/// with success.
pub open spec fn end_state(framing: Framing, verbose: bool, s: Decoded) -> Decoded {
    if s.status is Open {
        if exists|i: int| 0 <= i < s.pending.len() && is_content(#[trigger] s.pending[i]) {
            let (out, verdict) = frame_step(framing, verbose, s.pending);
            Decoded {
                fragments: s.fragments + out,
                status: match verdict {
                    Verdict::Fail(err) => Status::Failed(err),
                    _ => Status::Finished,
                },
                pending: Seq::empty(),
            }
        } else {
            Decoded { status: Status::Finished, pending: Seq::empty(), ..s }
        }
    } else {
        s
    }
}

proof fn lemma_drain_extend(framing: Framing, verbose: bool, buf: Seq<u8>, more: Seq<u8>)
    ensures
        ({
            let d = drain(framing, verbose, buf);
            let all = drain(framing, verbose, buf + more);
            if d.status is Open {
                let rest = drain(framing, verbose, d.pending + more);
                all == Decoded { fragments: d.fragments + rest.fragments, ..rest }
            } else {
                all == d
            }
        }),
    decreases buf.len(),
{
    lemma_next_split_bounds(framing, buf);
    match next_split(framing, buf) {
        Some((a, e, c)) => {
            lemma_next_split_extend(framing, buf, more);
            lemma_next_split_bounds(framing, buf + more);
            assert((buf + more).subrange(a, e) == buf.subrange(a, e));
            let tail = buf.subrange(c, buf.len() as int);
            assert((buf + more).subrange(c, (buf + more).len() as int) == tail + more);
            let (out, verdict) = frame_step(framing, verbose, buf.subrange(a, e));
            if verdict is Continue {
                lemma_drain_extend(framing, verbose, tail, more);
                let d = drain(framing, verbose, tail);
                if d.status is Open {
                    let rest = drain(framing, verbose, d.pending + more);
                    assert(out + (d.fragments + rest.fragments) == (out + d.fragments) + rest.fragments);
                }
            }
        },
        None => {
            let d = drain(framing, verbose, buf);
            assert(d.fragments + drain(framing, verbose, buf + more).fragments
                == drain(framing, verbose, buf + more).fragments);
        },
    }
}

/// Reading `x` and then `y` leaves the decoder as reading `x` and `y` in one
/// read does.
pub proof fn lemma_feed_split(framing: Framing, verbose: bool, s: Decoded, x: Seq<u8>, y: Seq<u8>)
    ensures
        feed_state(framing, verbose, feed_state(framing, verbose, s, x), y)
            == feed_state(framing, verbose, s, x + y),
{
    if s.status is Open {
        assert(s.pending + (x + y) == (s.pending + x) + y);
        lemma_drain_extend(framing, verbose, s.pending + x, y);
        let d = drain(framing, verbose, s.pending + x);
        if d.status is Open {
            let rest = drain(framing, verbose, d.pending + y);
            assert(s.fragments + (d.fragments + rest.fragments) == (s.fragments + d.fragments) + rest.fragments);
        }
    }
}

/// Chunk boundaries do not matter: however a body is split into reads, the
/// decoder hands out the same fragments and ends in the same state as when
/// the whole body comes in one read, before and after the body ends.
pub proof fn lemma_chunk_boundary_invariance(framing: Framing, verbose: bool, chunks: Seq<Seq<u8>>)
    ensures
        run(framing, verbose, chunks) == run(framing, verbose, seq![concat(chunks)]),
        decode_all(framing, verbose, chunks) == decode_all(framing, verbose, seq![concat(chunks)]),
    decreases chunks.len(),
{
    lemma_run_single(framing, verbose, concat(chunks));
    if chunks.len() > 0 {
        let init = chunks.drop_last();
        lemma_chunk_boundary_invariance(framing, verbose, init);
        lemma_run_single(framing, verbose, concat(init));
        lemma_feed_split(framing, verbose, start_state(), concat(init), chunks.last());
        assert(concat(chunks) == concat(init) + chunks.last());
    } else {
        assert(concat(chunks) == Seq::<u8>::empty());
        assert(drain(framing, verbose, Seq::empty()) == start_state());
        assert(feed_state(framing, verbose, start_state(), Seq::empty()) == start_state()) by {
            assert(start_state().pending + Seq::<u8>::empty() == Seq::<u8>::empty());
            assert(Seq::<FragmentView>::empty() + Seq::<FragmentView>::empty() == Seq::<FragmentView>::empty());
        }
    }
}

/// A frame that ends beyond the bytes received so far is not found in them:
/// a JSON value split across reads is only taken once its last byte has come.
pub proof fn lemma_frame_needs_all_its_bytes(framing: Framing, s: Seq<u8>, t: Seq<u8>)
    requires
        (next_split(framing, s + t) matches Some((a, e, c)) && c > s.len()),
    ensures
        (next_split(framing, s) is None),
{
    if next_split(framing, s) is Some {
        lemma_next_split_extend(framing, s, t);
        lemma_next_split_bounds(framing, s);
    }
}

/// A read that completes no frame hands out nothing and keeps its bytes.
pub proof fn lemma_incomplete_read_waits(framing: Framing, verbose: bool, s: Decoded, chunk: Seq<u8>)
    requires
        (s.status is Open),
        (next_split(framing, s.pending + chunk) is None),
    ensures
        feed_state(framing, verbose, s, chunk) == (Decoded { pending: s.pending + chunk, ..s }),
{
    assert(s.fragments + Seq::<FragmentView>::empty() == s.fragments);
}

/// A value split across two reads: the first read hands out nothing, keeps
/// its bytes and leaves the stream open; after the second, the decoder stands
/// as if the whole value had come in one read.
pub proof fn lemma_split_value(framing: Framing, verbose: bool, x: Seq<u8>, y: Seq<u8>)
    requires
        (next_split(framing, x + y) matches Some((a, e, c)) && c > x.len()),
    ensures
        feed_state(framing, verbose, start_state(), x) == (Decoded {
            fragments: Seq::empty(),
            status: Status::Open,
            pending: x,
        }),
        feed_state(framing, verbose, feed_state(framing, verbose, start_state(), x), y) == feed_state(
            framing,
            verbose,
            start_state(),
            x + y,
        ),
{
    lemma_frame_needs_all_its_bytes(framing, x, y);
    assert(start_state().pending + x == x);
    lemma_incomplete_read_waits(framing, verbose, start_state(), x);
    lemma_feed_split(framing, verbose, start_state(), x, y);
}

proof fn lemma_run_single(framing: Framing, verbose: bool, x: Seq<u8>)
    ensures
        run(framing, verbose, seq![x]) == feed_state(framing, verbose, start_state(), x),
{
    let w = seq![x];
    assert(w.drop_last() == Seq::<Seq<u8>>::empty());
    assert(w.last() == x);
    assert(run(framing, verbose, w.drop_last()) == start_state());
}

/// Classifies one frame under a framing.
pub fn classify_frame(framing: Framing, verbose: bool, frame: Vec<u8>) -> (r: (Vec<Fragment>, Verdict))
    ensures
        (views(r.0@), r.1) == frame_step(framing, verbose, frame@),
{
    match framing {
        Framing::EventStream => classify_event_frame(verbose, frame),
        Framing::ObjectStream => classify_object_frame(&frame),
    }
}

fn has_content(s: &Vec<u8>) -> (r: bool)
    ensures
        r == exists|i: int| 0 <= i < s@.len() && is_content(#[trigger] s@[i]),
{
    let mut i: usize = 0;
    while i < s.len()
        invariant
            i <= s@.len(),
            forall|k: int| 0 <= k < i ==> !is_content(#[trigger] s@[k]),
        decreases s.len() - i,
    {
        let b = s[i];
        if !(b == 0x20 || b == 0x09 || b == 0x0a || b == 0x0d) {
            return true;
        }
        i = i + 1;
    }
    false
}

fn append_all(out: &mut Vec<Fragment>, more: Vec<Fragment>)
    ensures
        views(final(out)@) == views(old(out)@) + views(more@),
{
    let mut more = more;
    let ghost a = out@;
    let ghost b = more@;
    out.append(&mut more);
    assert(views(out@) =~= views(a) + views(b));
}

/// The stream driver for one response body. It waits for bytes while no
/// frame is complete, hands out the fragments of each complete frame in
/// arrival order, and is done once a frame ends the stream or the body ends.
/// Frames that hold neither content nor an error envelope are skipped without
/// any cap: each uses up its own bytes, so a read never loops without end.
pub struct StreamDecoder {
    frames: FrameBuffer,
    verbose: bool,
    status: Status,
}

impl StreamDecoder {
    /// How the body is cut into frames.
    pub closed spec fn framing_spec(&self) -> Framing {
        self.frames.framing_spec()
    }

    /// Whether frames are passed on whole.
    pub closed spec fn verbose_spec(&self) -> bool {
        self.verbose
    }

    /// Where the stream stands.
    pub closed spec fn status_spec(&self) -> Status {
        self.status
    }

    /// The bytes of a frame not yet complete.
    pub closed spec fn pending(&self) -> Seq<u8> {
        self.frames.pending()
    }

    /// The decoder's state, with no fragment handed out yet.
    pub open spec fn state(&self) -> Decoded {
        Decoded { fragments: Seq::empty(), status: self.status_spec(), pending: self.pending() }
    }

    /// A decoder for a new body.
    pub fn new(framing: Framing, verbose: bool) -> (r: StreamDecoder)
        ensures
            r.framing_spec() == framing,
            r.verbose_spec() == verbose,
            r.state() == start_state(),
    {
        StreamDecoder { frames: FrameBuffer::new(framing), verbose, status: Status::Open }
    }

    /// Whether the stream may still take bytes.
    pub fn is_open(&self) -> (r: bool)
        ensures
            r == self.status_spec() is Open,
    {
        match self.status {
            Status::Open => true,
            _ => false,
        }
    }

    /// Where the stream stands.
    pub fn status(&self) -> (r: &Status)
        ensures
            *r == self.status_spec(),
    {
        &self.status
    }

    /// Takes the bytes of one read and hands back, in order, the fragments of
    /// the frames that they complete.
    pub fn feed(&mut self, chunk: &[u8]) -> (r: Vec<Fragment>)
        ensures
            final(self).framing_spec() == old(self).framing_spec(),
            final(self).verbose_spec() == old(self).verbose_spec(),
            ({
                let s = feed_state(old(self).framing_spec(), old(self).verbose_spec(), old(self).state(), chunk@);
                &&& views(r@) == s.fragments
                &&& final(self).state() == Decoded { fragments: Seq::empty(), ..s }
            }),
    {
        let mut out: Vec<Fragment> = Vec::new();
        assert(views(out@) == Seq::<FragmentView>::empty());
        if !self.is_open() {
            return out;
        }
        self.frames.append(chunk);
        let framing = self.frames.framing();
        let verbose = self.verbose;
        let ghost whole = self.frames.pending();
        let ghost mut acc: Seq<FragmentView> = Seq::empty();
        let ghost target = feed_state(framing, verbose, old(self).state(), chunk@);
        assert(Seq::<FragmentView>::empty() + drain(framing, verbose, whole).fragments
            == drain(framing, verbose, whole).fragments);
        assert(target == drain(framing, verbose, whole));
        loop
            invariant
                target == feed_state(old(self).framing_spec(), old(self).verbose_spec(), old(self).state(), chunk@),
                target == drain(framing, verbose, whole),
                framing == self.frames.framing_spec(),
                framing == old(self).framing_spec(),
                verbose == self.verbose,
                verbose == old(self).verbose,
                whole == old(self).pending() + chunk@,
                self.status is Open,
                views(out@) == acc,
                ({
                    let d = drain(framing, verbose, self.frames.pending());
                    drain(framing, verbose, whole) == Decoded { fragments: acc + d.fragments, ..d }
                }),
            decreases self.frames.pending().len(),
        {
            let ghost buf = self.frames.pending();
            proof {
                lemma_next_split_bounds(framing, buf);
            }
            match self.frames.next_frame() {
                None => {
                    assert(acc + Seq::<FragmentView>::empty() == acc);
                    assert(Seq::<FragmentView>::empty() + acc == acc);
                    return out;
                },
                Some(frame) => {
                    let ghost fr = frame@;
                    let (more, verdict) = classify_frame(framing, verbose, frame);
                    let ghost added = views(more@);
                    append_all(&mut out, more);
                    match verdict {
                        Verdict::Continue => {
                            proof {
                                let d = drain(framing, verbose, self.frames.pending());
                                assert(acc + (added + d.fragments) == (acc + added) + d.fragments);
                                acc = acc + added;
                            }
                        },
                        Verdict::Finish => {
                            assert(drain(framing, verbose, buf).fragments == added);
                            assert(Seq::<FragmentView>::empty() + (acc + added) == acc + added);
                            self.status = Status::Finished;
                            let _ = self.frames.take_rest();
                            return out;
                        },
                        Verdict::Fail(err) => {
                            assert(drain(framing, verbose, buf).fragments == added);
                            assert(drain(framing, verbose, buf).status == Status::Failed(err));
                            assert(Seq::<FragmentView>::empty() + (acc + added) == acc + added);
                            self.status = Status::Failed(err);
                            let _ = self.frames.take_rest();
                            return out;
                        },
                    }
                },
            }
        }
    }

    /// Ends the body: reads bytes left over as one last frame, unless they are
    /// all whitespace, and hands back its fragments.
    pub fn finish(&mut self) -> (r: Vec<Fragment>)
        ensures
            final(self).framing_spec() == old(self).framing_spec(),
            final(self).verbose_spec() == old(self).verbose_spec(),
            ({
                let s = end_state(old(self).framing_spec(), old(self).verbose_spec(), old(self).state());
                &&& views(r@) == s.fragments
                &&& final(self).state() == Decoded { fragments: Seq::empty(), ..s }
            }),
    {
        let mut out: Vec<Fragment> = Vec::new();
        assert(views(out@) == Seq::<FragmentView>::empty());
        if !self.is_open() {
            return out;
        }
        let rest = self.frames.take_rest();
        if has_content(&rest) {
            let framing = self.frames.framing();
            let (more, verdict) = classify_frame(framing, self.verbose, rest);
            assert(Seq::<FragmentView>::empty() + views(more@) == views(more@));
            self.status = match verdict {
                Verdict::Fail(err) => Status::Failed(err),
                _ => Status::Finished,
            };
            more
        } else {
            self.status = Status::Finished;
            out
        }
    }
}

/// The bytes of each read.
pub open spec fn chunk_bytes(chunks: Seq<Vec<u8>>) -> Seq<Seq<u8>> {
    chunks.map_values(|c: Vec<u8>| c@)
}

/// What a whole body, read as `chunks`, comes to once it has ended.
pub open spec fn decode_all(framing: Framing, verbose: bool, chunks: Seq<Seq<u8>>) -> Decoded {
    end_state(framing, verbose, run(framing, verbose, chunks))
}

/// Decodes a whole body that came in the reads `chunks`: the fragments in
/// order, and how the stream ended.
pub fn decode_chunks(framing: Framing, verbose: bool, chunks: &Vec<Vec<u8>>) -> (r: (Vec<Fragment>, Status))
    ensures
        views(r.0@) == decode_all(framing, verbose, chunk_bytes(chunks@)).fragments,
        r.1 == decode_all(framing, verbose, chunk_bytes(chunks@)).status,
{
    let mut d = StreamDecoder::new(framing, verbose);
    let mut out: Vec<Fragment> = Vec::new();
    let mut i: usize = 0;
    assert(views(out@) == Seq::<FragmentView>::empty());
    assert(chunk_bytes(chunks@).subrange(0, 0) == Seq::<Seq<u8>>::empty());
    while i < chunks.len()
        invariant
            i <= chunks@.len(),
            d.framing_spec() == framing,
            d.verbose_spec() == verbose,
            ({
                let s = run(framing, verbose, chunk_bytes(chunks@).subrange(0, i as int));
                &&& views(out@) == s.fragments
                &&& d.state() == Decoded { fragments: Seq::empty(), ..s }
            }),
        decreases chunks@.len() - i,
    {
        let ghost prev = run(framing, verbose, chunk_bytes(chunks@).subrange(0, i as int));
        let more = d.feed(chunks[i].as_slice());
        proof {
            let cs = chunk_bytes(chunks@).subrange(0, i + 1);
            assert(cs.drop_last() == chunk_bytes(chunks@).subrange(0, i as int));
            assert(cs.last() == chunks@[i as int]@);
            if prev.status is Open {
                assert(Seq::<u8>::empty() + prev.pending == prev.pending);
            }
        }
        append_all(&mut out, more);
        proof {
            let cs = chunk_bytes(chunks@).subrange(0, i + 1);
            let s = run(framing, verbose, cs);
            if prev.status is Open {
                let dd = drain(framing, verbose, prev.pending + chunks@[i as int]@);
                assert(s.fragments == prev.fragments + dd.fragments);
                assert(Seq::<FragmentView>::empty() + dd.fragments == dd.fragments);
            } else {
                assert(prev.fragments + Seq::<FragmentView>::empty() == prev.fragments);
            }
        }
        i = i + 1;
    }
    assert(chunk_bytes(chunks@).subrange(0, chunks@.len() as int) == chunk_bytes(chunks@));
    let ghost before = run(framing, verbose, chunk_bytes(chunks@));
    let tail = d.finish();
    proof {
        if before.status is Open {
            if exists|k: int| 0 <= k < before.pending.len() && is_content(#[trigger] before.pending[k]) {
                let (o, v) = frame_step(framing, verbose, before.pending);
                assert(Seq::<FragmentView>::empty() + o == o);
            } else {
                assert(Seq::<FragmentView>::empty() + Seq::<FragmentView>::empty() == Seq::<FragmentView>::empty());
            }
        }
    }
    append_all(&mut out, tail);
    proof {
        let s = decode_all(framing, verbose, chunk_bytes(chunks@));
        if !(before.status is Open) {
            assert(before.fragments + Seq::<FragmentView>::empty() == before.fragments);
        } else if !(exists|k: int| 0 <= k < before.pending.len() && is_content(#[trigger] before.pending[k])) {
            assert(before.fragments + Seq::<FragmentView>::empty() == before.fragments);
        }
    }
    let status = match d.status() {
        Status::Open => Status::Open,
        Status::Finished => Status::Finished,
        Status::Failed(e) => Status::Failed(e.copy()),
    };
    (out, status)
}

} // verus!
